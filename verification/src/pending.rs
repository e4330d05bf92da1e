//! Which objects wait to be synced, and that what was handed out waits no more.

use crate::changes;
use crate::changes::{
    DeckConfigIDs, DeckConfigRead, DeckIDs, DecksRead, GatherCall, NotetypeIDs, NotetypesRead,
    TagsFound,
};
use crate::chunk;
use crate::chunk::{ChunkRead, UsnUpdate};
use crate::graves;
use crate::ids;
use crate::ids::{DeckConfID, DeckID, NoteTypeID, ObjectID, Usn};
use crate::objects::{DeckConfSchema11, DeckSchema11, NoteTypeSchema11};
use crate::state;
use vstd::prelude::*;

verus! {

/// An object with the number `usn` waits to be synced, going by `Usn::pending_object_clause`.
pub open spec fn waits(usn: Usn, pending_usn: Usn) -> bool {
    if pending_usn.0 == state::PENDING_USN {
        usn == pending_usn
    } else {
        usn.0 >= pending_usn.0
    }
}

/// Those of a table's objects that wait to be synced.
pub open spec fn waiting<K>(usns: Map<K, Usn>, pending_usn: Usn) -> Set<K> {
    Set::new(|key: K| usns.contains_key(key) && waits(usns[key], pending_usn))
}

/// The numbers of a table's objects once those under the keys have been given the new number,
/// where there is one.
pub open spec fn updated<K>(usns: Map<K, Usn>, keys: Seq<K>, new_usn: Option<Usn>) -> Map<K, Usn> {
    match new_usn {
        Some(usn) => usns.map_entries(
            |key: K, own: Usn|
                if keys.contains(key) {
                    usn
                } else {
                    own
                },
        ),
        None => usns,
    }
}

impl UsnUpdate {
    /// The numbers of the table's objects once the update has been carried out.
    pub open spec fn carried_out(self, usns: Map<i64, Usn>) -> Map<i64, Usn> {
        updated(usns, self.ids@, self.new_usn)
    }
}

/// The storage lists every object that waits to be synced, and no other.
pub open spec fn lists_waiting<K>(usns: Map<K, Usn>, pending_usn: Usn, listed: Seq<K>) -> bool {
    forall|key: K| #[trigger] listed.contains(key) <==> waiting(usns, pending_usn).contains(key)
}

/// Once an update has been carried out that gives a number of a sync, the objects named in it
/// have that number and wait no more. All others have the number that they had.
pub proof fn law_update_ends_the_wait(usns: Map<i64, Usn>, update: UsnUpdate, usn: Usn)
    requires
        update.new_usn == Some(usn),
        usn.0 != state::PENDING_USN,
    ensures
        update.carried_out(usns).dom() == usns.dom(),
        forall|id: i64| #[trigger]
            usns.contains_key(id) ==> update.carried_out(usns)[id] == if update.ids@.contains(id) {
                usn
            } else {
                usns[id]
            },
        waiting(update.carried_out(usns), Usn(state::PENDING_USN)) == waiting(
            usns,
            Usn(state::PENDING_USN),
        ).difference(update.ids@.to_set()),
{
    let after = update.carried_out(usns);
    assert(after.dom() =~= usns.dom());
    assert(waiting(after, Usn(state::PENDING_USN)) =~= waiting(
        usns,
        Usn(state::PENDING_USN),
    ).difference(update.ids@.to_set()));
}

/// Without a new number an update changes nothing.
pub proof fn law_update_without_a_number_changes_nothing(usns: Map<i64, Usn>, update: UsnUpdate)
    requires
        update.new_usn is None,
    ensures
        update.carried_out(usns) == usns,
{
}

proof fn lemma_none_listed_again<K>(
    usns: Map<K, Usn>,
    listed: Seq<K>,
    usn: Usn,
    again: Seq<K>,
)
    requires
        usn.0 != state::PENDING_USN,
        lists_waiting(usns, Usn(state::PENDING_USN), listed),
        lists_waiting(updated(usns, listed, Some(usn)), Usn(state::PENDING_USN), again),
    ensures
        again.len() == 0,
{
    if again.len() > 0 {
        let key = again[0];
        assert(again.contains(key));
        assert(waiting(updated(usns, listed, Some(usn)), Usn(state::PENDING_USN)).contains(key));
        assert(!listed.contains(key));
        assert(waiting(usns, Usn(state::PENDING_USN)).contains(key));
    }
}

/// A note type that is handed out waits no more: all that are handed out carry the new
/// number, and when the storage is asked again, it finds none.
pub proof fn law_notetypes_are_handed_out_once(
    asked: NotetypeIDs,
    usns: Map<i64, Usn>,
    usn: Usn,
    found: Vec<NoteTypeID>,
    update: UsnUpdate,
    reading: NotetypesRead,
    objects: Vec<Option<NoteTypeSchema11>>,
    next: GatherCall,
    again: Vec<NoteTypeID>,
)
    requires
        asked.gather.pending_usn.0 == state::PENDING_USN,
        asked.gather.new_usn == Some(usn),
        usn.0 != state::PENDING_USN,
        lists_waiting(usns, asked.gather.pending_usn, ids::numbers(found@)),
        asked.leads_to(Ok(found), GatherCall::ReadNotetypes { update, then: reading }),
        reading.leads_to(Ok(objects), next),
        lists_waiting(
            update.carried_out(usns),
            asked.gather.pending_usn,
            ids::numbers(again@),
        ),
    ensures
        next matches GatherCall::PendingDecks { then, .. } && {
            &&& then.notetypes@.len() == objects@.len()
            &&& changes::notetypes_stamped(then.notetypes@, Some(usn))
        },
        again@.len() == 0,
{
    lemma_none_listed_again(usns, ids::numbers(found@), usn, ids::numbers(again@));
}

/// A deck that is handed out waits no more: all that are handed out carry the new
/// number, and when the storage is asked again, it finds none.
pub proof fn law_decks_are_handed_out_once(
    asked: DeckIDs,
    usns: Map<i64, Usn>,
    usn: Usn,
    found: Vec<DeckID>,
    update: UsnUpdate,
    reading: DecksRead,
    objects: Vec<Option<DeckSchema11>>,
    next: GatherCall,
    again: Vec<DeckID>,
)
    requires
        asked.gather.pending_usn.0 == state::PENDING_USN,
        asked.gather.new_usn == Some(usn),
        usn.0 != state::PENDING_USN,
        lists_waiting(usns, asked.gather.pending_usn, ids::numbers(found@)),
        asked.leads_to(Ok(found), GatherCall::ReadDecks { update, then: reading }),
        reading.leads_to(Ok(objects), next),
        lists_waiting(
            update.carried_out(usns),
            asked.gather.pending_usn,
            ids::numbers(again@),
        ),
    ensures
        next matches GatherCall::PendingDeckConfig { then, .. } && {
            &&& then.decks@.len() == objects@.len()
            &&& changes::decks_stamped(then.decks@, Some(usn))
        },
        again@.len() == 0,
{
    lemma_none_listed_again(usns, ids::numbers(found@), usn, ids::numbers(again@));
}

/// An option group that is handed out waits no more: all that are handed out carry the new
/// number, and when the storage is asked again, it finds none.
pub proof fn law_deck_config_are_handed_out_once(
    asked: DeckConfigIDs,
    usns: Map<i64, Usn>,
    usn: Usn,
    found: Vec<DeckConfID>,
    update: UsnUpdate,
    reading: DeckConfigRead,
    objects: Vec<Option<DeckConfSchema11>>,
    next: GatherCall,
    again: Vec<DeckConfID>,
)
    requires
        asked.gather.pending_usn.0 == state::PENDING_USN,
        asked.gather.new_usn == Some(usn),
        usn.0 != state::PENDING_USN,
        lists_waiting(usns, asked.gather.pending_usn, ids::numbers(found@)),
        asked.leads_to(Ok(found), GatherCall::ReadDeckConfig { update, then: reading }),
        reading.leads_to(Ok(objects), next),
        lists_waiting(
            update.carried_out(usns),
            asked.gather.pending_usn,
            ids::numbers(again@),
        ),
    ensures
        next matches GatherCall::PendingTags { then, .. } && {
            &&& then.decks_and_config.config@.len() == objects@.len()
            &&& changes::config_stamped(then.decks_and_config.config@, Some(usn))
        },
        again@.len() == 0,
{
    lemma_none_listed_again(usns, ids::numbers(found@), usn, ids::numbers(again@));
}

/// A tag that is handed out waits no more: when the storage is asked again, it finds none.
pub proof fn law_tags_are_handed_out_once(
    asked: TagsFound,
    usns: Map<String, Usn>,
    usn: Usn,
    found: Vec<String>,
    next: GatherCall,
    again: Vec<String>,
)
    requires
        asked.gather.pending_usn.0 == state::PENDING_USN,
        asked.gather.new_usn == Some(usn),
        usn.0 != state::PENDING_USN,
        lists_waiting(usns, asked.gather.pending_usn, found@),
        asked.leads_to(Ok(found), next),
        next matches GatherCall::UpdateTagUsns { usn: new, then } ==> lists_waiting(
            updated(usns, then.tags@, Some(new)),
            asked.gather.pending_usn,
            again@,
        ),
    ensures
        next matches GatherCall::UpdateTagUsns { usn: new, then } && new == usn && then.tags
            == found,
        again@.len() == 0,
{
    lemma_none_listed_again(usns, found@, usn, again@);
}

/// The numbers of the objects that are sent in chunks, by their ids.
pub struct ChunkNumbers {
    pub revlog: Map<i64, Usn>,
    pub cards: Map<i64, Usn>,
    pub notes: Map<i64, Usn>,
}

impl ChunkNumbers {
    /// The numbers once the updates that go with reading a chunk have been carried out.
    pub open spec fn after(self, read: ChunkRead) -> ChunkNumbers {
        ChunkNumbers {
            revlog: read.updates@[0].carried_out(self.revlog),
            cards: read.updates@[1].carried_out(self.cards),
            notes: read.updates@[2].carried_out(self.notes),
        }
    }

    /// The numbers once all the chunks have been read.
    pub open spec fn after_all(self, reads: Seq<ChunkRead>) -> ChunkNumbers
        decreases reads.len(),
    {
        if reads.len() == 0 {
            self
        } else {
            self.after(reads[0]).after_all(reads.drop_first())
        }
    }

    /// No other objects wait to be synced than those under the ids.
    pub open spec fn waiting_among(self, ids: chunk::IDLists) -> bool {
        let pending_usn = Usn(state::PENDING_USN);
        &&& waiting(self.revlog, pending_usn).subset_of(ids::numbers(ids.revlog).to_set())
        &&& waiting(self.cards, pending_usn).subset_of(ids::numbers(ids.cards).to_set())
        &&& waiting(self.notes, pending_usn).subset_of(ids::numbers(ids.notes).to_set())
    }

    /// No object waits to be synced.
    pub open spec fn none_waiting(self) -> bool {
        let pending_usn = Usn(state::PENDING_USN);
        &&& waiting(self.revlog, pending_usn) == Set::<i64>::empty()
        &&& waiting(self.cards, pending_usn) == Set::<i64>::empty()
        &&& waiting(self.notes, pending_usn) == Set::<i64>::empty()
    }
}

proof fn lemma_popped_or_left<T: ObjectID>(all: Seq<T>, n: int, x: i64)
    requires
        0 <= n <= all.len(),
        ids::numbers(all).contains(x),
    ensures
        ids::numbers(graves::popped(all, n)).contains(x) || ids::numbers(
            graves::unpopped(all, n),
        ).contains(x),
{
    let i = choose|i: int| 0 <= i < all.len() && ids::numbers(all)[i] == x;
    if i < all.len() - n {
        assert(ids::numbers(graves::unpopped(all, n))[i] == x);
    } else {
        assert(ids::numbers(graves::popped(all, n))[all.len() - 1 - i] == x);
    }
}

proof fn lemma_wait_of_popped_ends<T: ObjectID>(
    usns: Map<i64, Usn>,
    all: Seq<T>,
    n: int,
    update: UsnUpdate,
    usn: Usn,
)
    requires
        0 <= n <= all.len(),
        usn.0 != state::PENDING_USN,
        update.new_usn == Some(usn),
        update.ids@ == ids::numbers(graves::popped(all, n)),
        waiting(usns, Usn(state::PENDING_USN)).subset_of(ids::numbers(all).to_set()),
    ensures
        waiting(update.carried_out(usns), Usn(state::PENDING_USN)).subset_of(
            ids::numbers(graves::unpopped(all, n)).to_set(),
        ),
{
    let after = waiting(update.carried_out(usns), Usn(state::PENDING_USN));
    law_update_ends_the_wait(usns, update, usn);
    assert forall|x: i64| after.contains(x) implies ids::numbers(
        graves::unpopped(all, n),
    ).to_set().contains(x) by {
        assert(waiting(usns, Usn(state::PENDING_USN)).contains(x));
        assert(ids::numbers(all).to_set().contains(x));
        lemma_popped_or_left(all, n, x);
    }
}

/// When a client has read the chunks up to the last, none of the objects waits any more: those
/// that waited had their turn, and got the new number.
pub proof fn law_sent_objects_wait_no_more(
    numbers: ChunkNumbers,
    ids: chunk::IDLists,
    reads: Seq<ChunkRead>,
    usn: Usn,
)
    requires
        usn.0 != state::PENDING_USN,
        numbers.waiting_among(ids),
        chunk::read_in_turn(false, ids, reads, Some(usn)),
    ensures
        numbers.after_all(reads).none_waiting(),
    decreases reads.len(),
{
    let read = reads[0];
    let after = numbers.after(read);
    let left = ids.left();
    let rounds = ids.rounds();
    chunk::law_last_chunk_leaves_nothing(ids);
    chunk::lemma_rounds_are_made(ids);
    lemma_wait_of_popped_ends(
        numbers.revlog,
        ids.revlog,
        graves::least(rounds, ids.revlog.len() as int),
        read.updates@[0],
        usn,
    );
    lemma_wait_of_popped_ends(
        numbers.cards,
        ids.cards,
        graves::least(rounds, ids.cards.len() as int),
        read.updates@[1],
        usn,
    );
    lemma_wait_of_popped_ends(
        numbers.notes,
        ids.notes,
        graves::least(rounds, ids.notes.len() as int),
        read.updates@[2],
        usn,
    );
    assert(after.waiting_among(left));
    if ids.last() {
        assert(reads.drop_first().len() == 0);
        assert(after.after_all(reads.drop_first()) == after);
        assert(ids::numbers(left.revlog).to_set() =~= Set::empty());
        assert(ids::numbers(left.cards).to_set() =~= Set::empty());
        assert(ids::numbers(left.notes).to_set() =~= Set::empty());
        assert(waiting(after.revlog, Usn(state::PENDING_USN)) =~= Set::empty());
        assert(waiting(after.cards, Usn(state::PENDING_USN)) =~= Set::empty());
        assert(waiting(after.notes, Usn(state::PENDING_USN)) =~= Set::empty());
    } else {
        law_sent_objects_wait_no_more(after, left, reads.drop_first(), usn);
    }
}

} // verus!
