//! Changes that travel in one piece: note types, decks, option groups, tags and settings.

use crate::chunk;
use crate::chunk::{Table, UsnUpdate};
use crate::collection::Collection;
use crate::error::AnkiError;
use crate::ids;
use crate::ids::{raw_ids, DeckConfID, DeckID, NoteTypeID, TimestampSecs, Usn};
use crate::objects::{DeckConfSchema11, DeckSchema11, NoteTypeSchema11};
use std::collections::HashMap;
use vstd::prelude::*;

verus! {

/// Decks and their option groups.
#[derive(Debug)]
pub struct DecksAndConfig {
    pub decks: Vec<DeckSchema11>,
    pub config: Vec<DeckConfSchema11>,
}

/// The changes of one side that are sent in one piece.
#[derive(Debug)]
pub struct UnchunkedChanges {
    pub notetypes: Vec<NoteTypeSchema11>,
    pub decks_and_config: DecksAndConfig,
    pub tags: Vec<String>,
    // the following are only sent if local is newer
    pub config: Option<HashMap<String, serde_json::Value>>,
    pub creation_stamp: Option<TimestampSecs>,
}

impl Default for DecksAndConfig {
    fn default() -> (res: Self)
        ensures
            res.decks@.len() == 0,
            res.config@.len() == 0,
    {
        DecksAndConfig { decks: Vec::new(), config: Vec::new() }
    }
}

impl Default for UnchunkedChanges {
    fn default() -> (changes: Self)
        ensures
            changes.total() == 0,
            changes.config is None,
            changes.creation_stamp is None,
    {
        UnchunkedChanges {
            notetypes: Vec::new(),
            decks_and_config: DecksAndConfig::default(),
            tags: Vec::new(),
            config: None,
            creation_stamp: None,
        }
    }
}

impl UnchunkedChanges {
    /// How many objects there are.
    pub open spec fn total(self) -> nat {
        self.notetypes@.len() + self.decks_and_config.decks@.len()
            + self.decks_and_config.config@.len() + self.tags@.len()
    }

    /// How many objects there are.
    pub fn count(&self) -> (n: usize)
        requires
            self.total() <= usize::MAX,
        ensures
            n == self.total(),
    {
        self.notetypes.len() + self.decks_and_config.decks.len()
            + self.decks_and_config.config.len() + self.tags.len()
    }
}

/// A note type as it is sent.
pub open spec fn sent_notetype(nt: NoteTypeSchema11, new_usn: Option<Usn>) -> NoteTypeSchema11 {
    NoteTypeSchema11 { usn: ids::stamp(nt.usn, new_usn), ..nt }
}

/// A deck as it is sent.
pub open spec fn sent_deck(deck: DeckSchema11, new_usn: Option<Usn>) -> DeckSchema11 {
    DeckSchema11 { usn: ids::stamp(deck.usn, new_usn), ..deck }
}

/// An option group as it is sent.
pub open spec fn sent_deck_config(
    conf: DeckConfSchema11,
    new_usn: Option<Usn>,
) -> DeckConfSchema11 {
    DeckConfSchema11 { usn: ids::stamp(conf.usn, new_usn), ..conf }
}

impl Collection {
    /// The changed note types as they are sent, given those that were found under the pending
    /// ids.
    pub fn changed_notetypes(
        &self,
        found: Vec<Option<NoteTypeSchema11>>,
        new_usn: Option<Usn>,
    ) -> (res: Vec<NoteTypeSchema11>)
        requires
            chunk::all_found(found@),
        ensures
            res@ == found@.map_values(
                |nt: Option<NoteTypeSchema11>| sent_notetype(nt->0, new_usn),
            ),
    {
        let mut res: Vec<NoteTypeSchema11> = Vec::new();
        for nt in it: found
            invariant
                it.seq() == found@,
                chunk::all_found(found@),
                res@ =~= found@.take(it.index() as int).map_values(
                    |nt: Option<NoteTypeSchema11>| sent_notetype(nt->0, new_usn),
                ),
        {
            assert(found@[it.index() as int] is Some);
            let mut nt = nt.unwrap();
            nt.usn = new_usn.unwrap_or(nt.usn);
            res.push(nt);
        }
        assert(found@.take(found@.len() as int) =~= found@);
        res
    }

    /// The changed decks as they are sent, given those that were found under the pending
    /// ids.
    pub fn changed_decks(
        &self,
        found: Vec<Option<DeckSchema11>>,
        new_usn: Option<Usn>,
    ) -> (res: Vec<DeckSchema11>)
        requires
            chunk::all_found(found@),
        ensures
            res@ == found@.map_values(|deck: Option<DeckSchema11>| sent_deck(deck->0, new_usn)),
    {
        let mut res: Vec<DeckSchema11> = Vec::new();
        for deck in it: found
            invariant
                it.seq() == found@,
                chunk::all_found(found@),
                res@ =~= found@.take(it.index() as int).map_values(
                    |deck: Option<DeckSchema11>| sent_deck(deck->0, new_usn),
                ),
        {
            assert(found@[it.index() as int] is Some);
            let mut deck = deck.unwrap();
            deck.usn = new_usn.unwrap_or(deck.usn);
            res.push(deck);
        }
        assert(found@.take(found@.len() as int) =~= found@);
        res
    }

    /// The changed option groups as they are sent, given those that were found under the pending
    /// ids.
    pub fn changed_deck_config(
        &self,
        found: Vec<Option<DeckConfSchema11>>,
        new_usn: Option<Usn>,
    ) -> (res: Vec<DeckConfSchema11>)
        requires
            chunk::all_found(found@),
        ensures
            res@ == found@.map_values(
                |conf: Option<DeckConfSchema11>| sent_deck_config(conf->0, new_usn),
            ),
    {
        let mut res: Vec<DeckConfSchema11> = Vec::new();
        for conf in it: found
            invariant
                it.seq() == found@,
                chunk::all_found(found@),
                res@ =~= found@.take(it.index() as int).map_values(
                    |conf: Option<DeckConfSchema11>| sent_deck_config(conf->0, new_usn),
                ),
        {
            assert(found@[it.index() as int] is Some);
            let mut conf = conf.unwrap();
            conf.usn = new_usn.unwrap_or(conf.usn);
            res.push(conf);
        }
        assert(found@.take(found@.len() as int) =~= found@);
        res
    }
}

/// What is gathered, and what for.
#[derive(Debug, Clone, Copy, PartialEq, Eq, Structural)]
pub struct Gather {
    /// The number of the objects that wait to be synced.
    pub pending_usn: Usn,
    /// The number that they get.
    pub new_usn: Option<Usn>,
    /// Settings go out as well.
    pub local_is_newer: bool,
}

/// What the storage is to do next while local changes are gathered. The first error of the
/// storage is what the gathering fails with.
#[derive(Debug)]
#[allow(inconsistent_fields)]
pub enum GatherCall {
    /// Find the note types that wait to be synced.
    PendingNotetypes { usn: Usn, then: NotetypeIDs },
    /// Carry out the update, and then read the note types named in it.
    ReadNotetypes { update: UsnUpdate, then: NotetypesRead },
    /// Find the decks that wait to be synced.
    PendingDecks { usn: Usn, then: DeckIDs },
    /// Carry out the update, and then read the decks named in it.
    ReadDecks { update: UsnUpdate, then: DecksRead },
    /// Find the option groups that wait to be synced.
    PendingDeckConfig { usn: Usn, then: DeckConfigIDs },
    /// Carry out the update, and then read the option groups named in it.
    ReadDeckConfig { update: UsnUpdate, then: DeckConfigRead },
    /// Find the tags that wait to be synced.
    PendingTags { usn: Usn, then: TagsFound },
    /// Give the tags, which stand in `then`, the new number.
    UpdateTagUsns { usn: Usn, then: TagsUpdated },
    /// Read all settings.
    AllConfig { then: ConfigRead },
    /// Take the settings off the list of what waits to be synced.
    ClearConfigUsns { then: ConfigCleared },
    /// Read the time at which the collection was created.
    CreationStamp { then: CreationStampRead },
    /// All is gathered.
    Finished(UnchunkedChanges),
    /// The gathering cannot go on.
    Failed(AnkiError),
}

/// Waits for the ids of pending note types.
#[derive(Debug)]
pub struct NotetypeIDs {
    pub gather: Gather,
}

/// Waits for note types.
#[derive(Debug)]
pub struct NotetypesRead {
    pub gather: Gather,
}

/// Waits for the ids of pending decks.
#[derive(Debug)]
pub struct DeckIDs {
    pub gather: Gather,
    pub notetypes: Vec<NoteTypeSchema11>,
}

/// Waits for decks.
#[derive(Debug)]
pub struct DecksRead {
    pub gather: Gather,
    pub notetypes: Vec<NoteTypeSchema11>,
}

/// Waits for the ids of pending option groups.
#[derive(Debug)]
pub struct DeckConfigIDs {
    pub gather: Gather,
    pub notetypes: Vec<NoteTypeSchema11>,
    pub decks: Vec<DeckSchema11>,
}

/// Waits for option groups.
#[derive(Debug)]
pub struct DeckConfigRead {
    pub gather: Gather,
    pub notetypes: Vec<NoteTypeSchema11>,
    pub decks: Vec<DeckSchema11>,
}

/// Waits for pending tags.
#[derive(Debug)]
pub struct TagsFound {
    pub gather: Gather,
    pub notetypes: Vec<NoteTypeSchema11>,
    pub decks_and_config: DecksAndConfig,
}

/// Waits until the tags have their new number.
#[derive(Debug)]
pub struct TagsUpdated {
    pub gather: Gather,
    pub notetypes: Vec<NoteTypeSchema11>,
    pub decks_and_config: DecksAndConfig,
    pub tags: Vec<String>,
}

/// Waits for the settings.
#[derive(Debug)]
pub struct ConfigRead {
    pub changes: UnchunkedChanges,
}

/// Waits until the settings are off the list.
#[derive(Debug)]
pub struct ConfigCleared {
    pub changes: UnchunkedChanges,
    pub config: HashMap<String, serde_json::Value>,
}

/// Waits for the time at which the collection was created.
#[derive(Debug)]
pub struct CreationStampRead {
    pub changes: UnchunkedChanges,
    pub config: HashMap<String, serde_json::Value>,
}

impl Collection {
    /// Starts to gather the local changes that are sent in one piece.
    pub fn local_unchunked_changes(
        &self,
        pending_usn: Usn,
        new_usn: Option<Usn>,
        local_is_newer: bool,
    ) -> (call: GatherCall)
        ensures
            call == (GatherCall::PendingNotetypes {
                usn: pending_usn,
                then: NotetypeIDs { gather: Gather { pending_usn, new_usn, local_is_newer } },
            }),
    {
        let gather = Gather { pending_usn, new_usn, local_is_newer };
        GatherCall::PendingNotetypes { usn: pending_usn, then: NotetypeIDs { gather } }
    }
}

impl NotetypeIDs {
    /// What follows on these ids.
    pub open spec fn leads_to(
        self,
        reply: Result<Vec<NoteTypeID>, AnkiError>,
        call: GatherCall,
    ) -> bool {
        match reply {
            Err(e) => call == GatherCall::Failed(e),
            Ok(ids) => {
                call matches GatherCall::ReadNotetypes { update, then } && {
                    &&& update.covers(Table::Notetypes, ids::numbers(ids@), self.gather.new_usn)
                    &&& then.gather == self.gather
                }
            },
        }
    }

    pub fn resume(self, reply: Result<Vec<NoteTypeID>, AnkiError>) -> (call: GatherCall)
        ensures
            self.leads_to(reply, call),
    {
        let ids = match reply {
            Err(e) => return GatherCall::Failed(e),
            Ok(ids) => ids,
        };
        let update = UsnUpdate {
            table: Table::Notetypes,
            ids: raw_ids(&ids),
            new_usn: self.gather.new_usn,
        };
        GatherCall::ReadNotetypes { update, then: NotetypesRead { gather: self.gather } }
    }
}

impl NotetypesRead {
    /// Whatever was asked for was found.
    pub open spec fn admits(self, reply: Result<Vec<Option<NoteTypeSchema11>>, AnkiError>) -> bool {
        reply matches Ok(found) ==> chunk::all_found(found@)
    }

    /// What follows on these note types.
    pub open spec fn leads_to(
        self,
        reply: Result<Vec<Option<NoteTypeSchema11>>, AnkiError>,
        call: GatherCall,
    ) -> bool {
        match reply {
            Err(e) => call == GatherCall::Failed(e),
            Ok(found) => {
                call matches GatherCall::PendingDecks { usn, then } && {
                    &&& usn == self.gather.pending_usn
                    &&& then.gather == self.gather
                    &&& then.notetypes@ == found@.map_values(
                        |nt: Option<NoteTypeSchema11>| sent_notetype(nt->0, self.gather.new_usn),
                    )
                }
            },
        }
    }

    pub fn resume(
        self,
        col: &Collection,
        reply: Result<Vec<Option<NoteTypeSchema11>>, AnkiError>,
    ) -> (call: GatherCall)
        requires
            self.admits(reply),
        ensures
            self.leads_to(reply, call),
    {
        let found = match reply {
            Err(e) => return GatherCall::Failed(e),
            Ok(found) => found,
        };
        let gather = self.gather;
        let notetypes = col.changed_notetypes(found, gather.new_usn);
        GatherCall::PendingDecks { usn: gather.pending_usn, then: DeckIDs { gather, notetypes } }
    }
}

impl DeckIDs {
    /// What follows on these ids.
    pub open spec fn leads_to(
        self,
        reply: Result<Vec<DeckID>, AnkiError>,
        call: GatherCall,
    ) -> bool {
        match reply {
            Err(e) => call == GatherCall::Failed(e),
            Ok(ids) => {
                call matches GatherCall::ReadDecks { update, then } && {
                    &&& update.covers(Table::Decks, ids::numbers(ids@), self.gather.new_usn)
                    &&& then.gather == self.gather
                    &&& then.notetypes == self.notetypes
                }
            },
        }
    }

    pub fn resume(self, reply: Result<Vec<DeckID>, AnkiError>) -> (call: GatherCall)
        ensures
            self.leads_to(reply, call),
    {
        let ids = match reply {
            Err(e) => return GatherCall::Failed(e),
            Ok(ids) => ids,
        };
        let update = UsnUpdate {
            table: Table::Decks,
            ids: raw_ids(&ids),
            new_usn: self.gather.new_usn,
        };
        GatherCall::ReadDecks {
            update,
            then: DecksRead { gather: self.gather, notetypes: self.notetypes },
        }
    }
}

impl DecksRead {
    /// Whatever was asked for was found.
    pub open spec fn admits(self, reply: Result<Vec<Option<DeckSchema11>>, AnkiError>) -> bool {
        reply matches Ok(found) ==> chunk::all_found(found@)
    }

    /// What follows on these decks.
    pub open spec fn leads_to(
        self,
        reply: Result<Vec<Option<DeckSchema11>>, AnkiError>,
        call: GatherCall,
    ) -> bool {
        match reply {
            Err(e) => call == GatherCall::Failed(e),
            Ok(found) => {
                call matches GatherCall::PendingDeckConfig { usn, then } && {
                    &&& usn == self.gather.pending_usn
                    &&& then.gather == self.gather
                    &&& then.notetypes == self.notetypes
                    &&& then.decks@ == found@.map_values(
                        |deck: Option<DeckSchema11>| sent_deck(deck->0, self.gather.new_usn),
                    )
                }
            },
        }
    }

    pub fn resume(
        self,
        col: &Collection,
        reply: Result<Vec<Option<DeckSchema11>>, AnkiError>,
    ) -> (call: GatherCall)
        requires
            self.admits(reply),
        ensures
            self.leads_to(reply, call),
    {
        let found = match reply {
            Err(e) => return GatherCall::Failed(e),
            Ok(found) => found,
        };
        let gather = self.gather;
        let decks = col.changed_decks(found, gather.new_usn);
        GatherCall::PendingDeckConfig {
            usn: gather.pending_usn,
            then: DeckConfigIDs { gather, notetypes: self.notetypes, decks },
        }
    }
}

impl DeckConfigIDs {
    /// What follows on these ids.
    pub open spec fn leads_to(
        self,
        reply: Result<Vec<DeckConfID>, AnkiError>,
        call: GatherCall,
    ) -> bool {
        match reply {
            Err(e) => call == GatherCall::Failed(e),
            Ok(ids) => {
                call matches GatherCall::ReadDeckConfig { update, then } && {
                    &&& update.covers(Table::DeckConfig, ids::numbers(ids@), self.gather.new_usn)
                    &&& then.gather == self.gather
                    &&& then.notetypes == self.notetypes
                    &&& then.decks == self.decks
                }
            },
        }
    }

    pub fn resume(self, reply: Result<Vec<DeckConfID>, AnkiError>) -> (call: GatherCall)
        ensures
            self.leads_to(reply, call),
    {
        let ids = match reply {
            Err(e) => return GatherCall::Failed(e),
            Ok(ids) => ids,
        };
        let update = UsnUpdate {
            table: Table::DeckConfig,
            ids: raw_ids(&ids),
            new_usn: self.gather.new_usn,
        };
        GatherCall::ReadDeckConfig {
            update,
            then: DeckConfigRead {
                gather: self.gather,
                notetypes: self.notetypes,
                decks: self.decks,
            },
        }
    }
}

impl DeckConfigRead {
    /// Whatever was asked for was found.
    pub open spec fn admits(self, reply: Result<Vec<Option<DeckConfSchema11>>, AnkiError>) -> bool {
        reply matches Ok(found) ==> chunk::all_found(found@)
    }

    /// What follows on these option groups.
    pub open spec fn leads_to(
        self,
        reply: Result<Vec<Option<DeckConfSchema11>>, AnkiError>,
        call: GatherCall,
    ) -> bool {
        match reply {
            Err(e) => call == GatherCall::Failed(e),
            Ok(found) => {
                call matches GatherCall::PendingTags { usn, then } && {
                    &&& usn == self.gather.pending_usn
                    &&& then.gather == self.gather
                    &&& then.notetypes == self.notetypes
                    &&& then.decks_and_config.decks == self.decks
                    &&& then.decks_and_config.config@ == found@.map_values(
                        |conf: Option<DeckConfSchema11>| sent_deck_config(conf->0, self.gather.new_usn),
                    )
                }
            },
        }
    }

    pub fn resume(
        self,
        col: &Collection,
        reply: Result<Vec<Option<DeckConfSchema11>>, AnkiError>,
    ) -> (call: GatherCall)
        requires
            self.admits(reply),
        ensures
            self.leads_to(reply, call),
    {
        let found = match reply {
            Err(e) => return GatherCall::Failed(e),
            Ok(found) => found,
        };
        let gather = self.gather;
        let config = col.changed_deck_config(found, gather.new_usn);
        let decks_and_config = DecksAndConfig { decks: self.decks, config };
        GatherCall::PendingTags {
            usn: gather.pending_usn,
            then: TagsFound { gather, notetypes: self.notetypes, decks_and_config },
        }
    }
}

/// What follows once all objects are gathered: the settings, but only from the newer side.
pub open spec fn settings_next(
    changes: UnchunkedChanges,
    local_is_newer: bool,
    call: GatherCall,
) -> bool {
    if local_is_newer {
        call == (GatherCall::AllConfig { then: ConfigRead { changes } })
    } else {
        call == GatherCall::Finished(changes)
    }
}

fn gather_settings(changes: UnchunkedChanges, local_is_newer: bool) -> (call: GatherCall)
    ensures
        settings_next(changes, local_is_newer, call),
{
    if local_is_newer {
        GatherCall::AllConfig { then: ConfigRead { changes } }
    } else {
        GatherCall::Finished(changes)
    }
}

impl TagsFound {
    /// What follows on these tags: they get the new number, where there is one.
    pub open spec fn leads_to(
        self,
        reply: Result<Vec<String>, AnkiError>,
        call: GatherCall,
    ) -> bool {
        match reply {
            Err(e) => call == GatherCall::Failed(e),
            Ok(tags) => {
                match self.gather.new_usn {
                    Some(usn) => call == (GatherCall::UpdateTagUsns {
                        usn,
                        then: TagsUpdated {
                            gather: self.gather,
                            notetypes: self.notetypes,
                            decks_and_config: self.decks_and_config,
                            tags,
                        },
                    }),
                    None => settings_next(
                        UnchunkedChanges {
                            notetypes: self.notetypes,
                            decks_and_config: self.decks_and_config,
                            tags,
                            config: None,
                            creation_stamp: None,
                        },
                        self.gather.local_is_newer,
                        call,
                    ),
                }
            },
        }
    }

    pub fn resume(self, reply: Result<Vec<String>, AnkiError>) -> (call: GatherCall)
        ensures
            self.leads_to(reply, call),
    {
        let tags = match reply {
            Err(e) => return GatherCall::Failed(e),
            Ok(tags) => tags,
        };
        let found = TagsUpdated {
            gather: self.gather,
            notetypes: self.notetypes,
            decks_and_config: self.decks_and_config,
            tags,
        };
        match self.gather.new_usn {
            Some(usn) => GatherCall::UpdateTagUsns { usn, then: found },
            None => found.resume(Ok(())),
        }
    }
}

impl TagsUpdated {
    /// What follows once the tags have their new number.
    pub open spec fn leads_to(self, reply: Result<(), AnkiError>, call: GatherCall) -> bool {
        match reply {
            Err(e) => call == GatherCall::Failed(e),
            Ok(_) => {
                settings_next(
                    UnchunkedChanges {
                        notetypes: self.notetypes,
                        decks_and_config: self.decks_and_config,
                        tags: self.tags,
                        config: None,
                        creation_stamp: None,
                    },
                    self.gather.local_is_newer,
                    call,
                )
            },
        }
    }

    pub fn resume(self, reply: Result<(), AnkiError>) -> (call: GatherCall)
        ensures
            self.leads_to(reply, call),
    {
        if let Err(e) = reply {
            return GatherCall::Failed(e);
        }
        let changes = UnchunkedChanges {
            notetypes: self.notetypes,
            decks_and_config: self.decks_and_config,
            tags: self.tags,
            config: None,
            creation_stamp: None,
        };
        gather_settings(changes, self.gather.local_is_newer)
    }
}

impl ConfigRead {
    /// What follows on these settings. Currently this is all config, as legacy clients
    /// overwrite the local items with the provided value.
    pub open spec fn leads_to(
        self,
        reply: Result<HashMap<String, serde_json::Value>, AnkiError>,
        call: GatherCall,
    ) -> bool {
        match reply {
            Err(e) => call == GatherCall::Failed(e),
            Ok(config) => {
                call == (GatherCall::ClearConfigUsns {
                    then: ConfigCleared { changes: self.changes, config },
                })
            },
        }
    }

    pub fn resume(
        self,
        reply: Result<HashMap<String, serde_json::Value>, AnkiError>,
    ) -> (call: GatherCall)
        ensures
            self.leads_to(reply, call),
    {
        let config = match reply {
            Err(e) => return GatherCall::Failed(e),
            Ok(config) => config,
        };
        GatherCall::ClearConfigUsns { then: ConfigCleared { changes: self.changes, config } }
    }
}

impl ConfigCleared {
    /// What follows once the settings are off the list.
    pub open spec fn leads_to(self, reply: Result<(), AnkiError>, call: GatherCall) -> bool {
        match reply {
            Err(e) => call == GatherCall::Failed(e),
            Ok(_) => {
                call == (GatherCall::CreationStamp {
                    then: CreationStampRead { changes: self.changes, config: self.config },
                })
            },
        }
    }

    pub fn resume(self, reply: Result<(), AnkiError>) -> (call: GatherCall)
        ensures
            self.leads_to(reply, call),
    {
        if let Err(e) = reply {
            return GatherCall::Failed(e);
        }
        GatherCall::CreationStamp {
            then: CreationStampRead { changes: self.changes, config: self.config },
        }
    }
}

impl CreationStampRead {
    /// What follows on this time: all is gathered.
    pub open spec fn leads_to(
        self,
        reply: Result<TimestampSecs, AnkiError>,
        call: GatherCall,
    ) -> bool {
        match reply {
            Err(e) => call == GatherCall::Failed(e),
            Ok(stamp) => {
                call == GatherCall::Finished(
                    UnchunkedChanges {
                        config: Some(self.config),
                        creation_stamp: Some(stamp),
                        ..self.changes
                    },
                )
            },
        }
    }

    pub fn resume(self, reply: Result<TimestampSecs, AnkiError>) -> (call: GatherCall)
        ensures
            self.leads_to(reply, call),
    {
        let stamp = match reply {
            Err(e) => return GatherCall::Failed(e),
            Ok(stamp) => stamp,
        };
        let changes = self.changes;
        GatherCall::Finished(
            UnchunkedChanges {
                notetypes: changes.notetypes,
                decks_and_config: changes.decks_and_config,
                tags: changes.tags,
                config: Some(self.config),
                creation_stamp: Some(stamp),
            },
        )
    }
}

/// What the storage answers with while changes are gathered without an error.
pub struct GatherAnswers {
    pub notetype_ids: Vec<NoteTypeID>,
    pub notetypes: Vec<Option<NoteTypeSchema11>>,
    pub deck_ids: Vec<DeckID>,
    pub decks: Vec<Option<DeckSchema11>>,
    pub deck_config_ids: Vec<DeckConfID>,
    pub deck_config: Vec<Option<DeckConfSchema11>>,
    pub tags: Vec<String>,
    pub config: HashMap<String, serde_json::Value>,
    pub creation_stamp: TimestampSecs,
}

impl GatherAnswers {
    /// The answer to the call leads to the next.
    pub open spec fn step(self, call: GatherCall, next: GatherCall) -> bool {
        match call {
            GatherCall::PendingNotetypes { then, .. } => then.leads_to(Ok(self.notetype_ids), next),
            GatherCall::ReadNotetypes { then, .. } => then.leads_to(Ok(self.notetypes), next),
            GatherCall::PendingDecks { then, .. } => then.leads_to(Ok(self.deck_ids), next),
            GatherCall::ReadDecks { then, .. } => then.leads_to(Ok(self.decks), next),
            GatherCall::PendingDeckConfig { then, .. } => then.leads_to(
                Ok(self.deck_config_ids),
                next,
            ),
            GatherCall::ReadDeckConfig { then, .. } => then.leads_to(Ok(self.deck_config), next),
            GatherCall::PendingTags { then, .. } => then.leads_to(Ok(self.tags), next),
            GatherCall::UpdateTagUsns { then, .. } => then.leads_to(Ok(()), next),
            GatherCall::AllConfig { then } => then.leads_to(Ok(self.config), next),
            GatherCall::ClearConfigUsns { then } => then.leads_to(Ok(()), next),
            GatherCall::CreationStamp { then } => then.leads_to(Ok(self.creation_stamp), next),
            GatherCall::Finished(_) => false,
            GatherCall::Failed(_) => false,
        }
    }

    /// The call after the one at `i` comes of the answer to it.
    pub open spec fn follows(self, calls: Seq<GatherCall>, i: int) -> bool {
        self.step(calls[i], calls[i + 1])
    }

    /// The changes are gathered in these calls: each comes of the answer to the one before.
    pub open spec fn gathering(self, gather: Gather, calls: Seq<GatherCall>) -> bool {
        &&& calls.len() > 0
        &&& calls[0] == (GatherCall::PendingNotetypes {
            usn: gather.pending_usn,
            then: NotetypeIDs { gather },
        })
        &&& forall|i: int| 0 <= i < calls.len() - 1 ==> #[trigger] self.follows(calls, i)
    }

    /// These are the note types that were found, as they are sent.
    pub open spec fn gives_notetypes(
        self,
        notetypes: Seq<NoteTypeSchema11>,
        new_usn: Option<Usn>,
    ) -> bool {
        notetypes == self.notetypes@.map_values(
            |nt: Option<NoteTypeSchema11>| sent_notetype(nt->0, new_usn),
        )
    }

    /// These are the decks that were found, as they are sent.
    pub open spec fn gives_decks(self, decks: Seq<DeckSchema11>, new_usn: Option<Usn>) -> bool {
        decks == self.decks@.map_values(|deck: Option<DeckSchema11>| sent_deck(deck->0, new_usn))
    }

    /// These are the option groups that were found, as they are sent.
    pub open spec fn gives_config(
        self,
        config: Seq<DeckConfSchema11>,
        new_usn: Option<Usn>,
    ) -> bool {
        config == self.deck_config@.map_values(
            |conf: Option<DeckConfSchema11>| sent_deck_config(conf->0, new_usn),
        )
    }

    /// These are the objects that were found, as they are sent.
    pub open spec fn gives_objects(self, changes: UnchunkedChanges, new_usn: Option<Usn>) -> bool {
        &&& self.gives_notetypes(changes.notetypes@, new_usn)
        &&& self.gives_decks(changes.decks_and_config.decks@, new_usn)
        &&& self.gives_config(changes.decks_and_config.config@, new_usn)
        &&& changes.tags == self.tags
    }

    /// What holds of every call while changes are gathered.
    spec fn fits(self, gather: Gather, call: GatherCall) -> bool {
        let usn = gather.new_usn;
        match call {
            GatherCall::PendingNotetypes { usn: pending, then } => pending == gather.pending_usn
                && then.gather == gather,
            GatherCall::ReadNotetypes { update, then } => then.gather == gather && update.covers(
                Table::Notetypes,
                ids::numbers(self.notetype_ids@),
                usn,
            ),
            GatherCall::PendingDecks { usn: pending, then } => {
                &&& pending == gather.pending_usn
                &&& then.gather == gather
                &&& self.gives_notetypes(then.notetypes@, usn)
            },
            GatherCall::ReadDecks { update, then } => {
                &&& update.covers(Table::Decks, ids::numbers(self.deck_ids@), usn)
                &&& then.gather == gather
                &&& self.gives_notetypes(then.notetypes@, usn)
            },
            GatherCall::PendingDeckConfig { usn: pending, then } => {
                &&& pending == gather.pending_usn
                &&& then.gather == gather
                &&& self.gives_notetypes(then.notetypes@, usn)
                &&& self.gives_decks(then.decks@, usn)
            },
            GatherCall::ReadDeckConfig { update, then } => {
                &&& update.covers(Table::DeckConfig, ids::numbers(self.deck_config_ids@), usn)
                &&& then.gather == gather
                &&& self.gives_notetypes(then.notetypes@, usn)
                &&& self.gives_decks(then.decks@, usn)
            },
            GatherCall::PendingTags { usn: pending, then } => {
                &&& pending == gather.pending_usn
                &&& then.gather == gather
                &&& self.gives_notetypes(then.notetypes@, usn)
                &&& self.gives_decks(then.decks_and_config.decks@, usn)
                &&& self.gives_config(then.decks_and_config.config@, usn)
            },
            GatherCall::UpdateTagUsns { usn: new, then } => {
                &&& usn == Some(new)
                &&& then.gather == gather
                &&& self.gives_notetypes(then.notetypes@, usn)
                &&& self.gives_decks(then.decks_and_config.decks@, usn)
                &&& self.gives_config(then.decks_and_config.config@, usn)
                &&& then.tags == self.tags
            },
            GatherCall::AllConfig { then } => gather.local_is_newer && self.gives_objects(
                then.changes,
                usn,
            ),
            GatherCall::ClearConfigUsns { then } => gather.local_is_newer && self.gives_objects(
                then.changes,
                usn,
            ) && then.config == self.config,
            GatherCall::CreationStamp { then } => gather.local_is_newer && self.gives_objects(
                then.changes,
                usn,
            ) && then.config == self.config,
            GatherCall::Failed(_) => false,
            GatherCall::Finished(changes) => {
                &&& self.gives_objects(changes, usn)
                &&& changes.config == if gather.local_is_newer {
                    Some(self.config)
                } else {
                    None
                }
                &&& changes.creation_stamp == if gather.local_is_newer {
                    Some(self.creation_stamp)
                } else {
                    None
                }
            },
        }
    }
}

/// The note types have the new number, where there is one.
pub open spec fn notetypes_stamped(notetypes: Seq<NoteTypeSchema11>, new_usn: Option<Usn>) -> bool {
    new_usn matches Some(usn) ==> forall|i: int|
        0 <= i < notetypes.len() ==> (#[trigger] notetypes[i]).usn == usn
}

/// The decks have the new number, where there is one.
pub open spec fn decks_stamped(decks: Seq<DeckSchema11>, new_usn: Option<Usn>) -> bool {
    new_usn matches Some(usn) ==> forall|i: int|
        0 <= i < decks.len() ==> (#[trigger] decks[i]).usn == usn
}

/// The option groups have the new number, where there is one.
pub open spec fn config_stamped(config: Seq<DeckConfSchema11>, new_usn: Option<Usn>) -> bool {
    new_usn matches Some(usn) ==> forall|i: int|
        0 <= i < config.len() ==> (#[trigger] config[i]).usn == usn
}

impl UnchunkedChanges {
    /// Every object that has a number has the new one, where there is one.
    pub open spec fn stamped(self, new_usn: Option<Usn>) -> bool {
        &&& notetypes_stamped(self.notetypes@, new_usn)
        &&& decks_stamped(self.decks_and_config.decks@, new_usn)
        &&& config_stamped(self.decks_and_config.config@, new_usn)
    }
}

proof fn lemma_gather_fits(
    gather: Gather,
    answers: GatherAnswers,
    calls: Seq<GatherCall>,
    i: int,
)
    requires
        answers.gathering(gather, calls),
        0 <= i < calls.len(),
    ensures
        answers.fits(gather, calls[i]),
    decreases i,
{
    if i > 0 {
        lemma_gather_fits(gather, answers, calls, i - 1);
        assert(answers.follows(calls, i - 1));
    }
}

/// What is gathered is what was found. The settings are part of it exactly when the local side
/// is the newer one.
pub proof fn law_gathered_changes_are_those_found(
    gather: Gather,
    answers: GatherAnswers,
    calls: Seq<GatherCall>,
    changes: UnchunkedChanges,
)
    requires
        answers.gathering(gather, calls),
        calls.last() == GatherCall::Finished(changes),
    ensures
        answers.gives_objects(changes, gather.new_usn),
        changes.config == if gather.local_is_newer {
            Some(answers.config)
        } else {
            None
        },
        changes.creation_stamp == if gather.local_is_newer {
            Some(answers.creation_stamp)
        } else {
            None
        },
{
    lemma_gather_fits(gather, answers, calls, calls.len() - 1);
}

/// Whatever is gathered carries the new number, where there is one.
pub proof fn law_gathered_changes_are_stamped(
    gather: Gather,
    answers: GatherAnswers,
    calls: Seq<GatherCall>,
    changes: UnchunkedChanges,
)
    requires
        answers.gathering(gather, calls),
        calls.last() == GatherCall::Finished(changes),
    ensures
        changes.stamped(gather.new_usn),
{
    lemma_gather_fits(gather, answers, calls, calls.len() - 1);
}

/// The gathering goes on with `next` where the storage answers the call with the error.
pub open spec fn refused(call: GatherCall, error: AnkiError, next: GatherCall) -> bool {
    match call {
        GatherCall::PendingNotetypes { then, .. } => then.leads_to(Err(error), next),
        GatherCall::ReadNotetypes { then, .. } => then.leads_to(Err(error), next),
        GatherCall::PendingDecks { then, .. } => then.leads_to(Err(error), next),
        GatherCall::ReadDecks { then, .. } => then.leads_to(Err(error), next),
        GatherCall::PendingDeckConfig { then, .. } => then.leads_to(Err(error), next),
        GatherCall::ReadDeckConfig { then, .. } => then.leads_to(Err(error), next),
        GatherCall::PendingTags { then, .. } => then.leads_to(Err(error), next),
        GatherCall::UpdateTagUsns { then, .. } => then.leads_to(Err(error), next),
        GatherCall::AllConfig { then } => then.leads_to(Err(error), next),
        GatherCall::ClearConfigUsns { then } => then.leads_to(Err(error), next),
        GatherCall::CreationStamp { then } => then.leads_to(Err(error), next),
        GatherCall::Finished(_) => false,
        GatherCall::Failed(_) => false,
    }
}

/// The first error of the storage ends a gathering, and is what it fails with.
pub proof fn law_storage_error_ends_the_gathering(
    call: GatherCall,
    error: AnkiError,
    next: GatherCall,
)
    requires
        refused(call, error, next),
    ensures
        next == GatherCall::Failed(error),
{
}

} // verus!
