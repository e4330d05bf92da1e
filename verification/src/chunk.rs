//! Reviews, cards and notes on their way to the server, a chunk at a time.

use crate::collection::Collection;
use crate::graves;
use crate::graves::CHUNK_SIZE;
use crate::ids;
use crate::ids::{raw_ids, CardID, NoteID, RevlogID, Usn};
use crate::objects::{Card, CardEntry, Note, NoteEntry, ReviewLogEntry};
use vstd::prelude::*;

verus! {

/// Objects that travel together.
#[derive(Debug)]
pub struct Chunk {
    /// This is the last chunk.
    pub done: bool,
    pub revlog: Vec<ReviewLogEntry>,
    pub cards: Vec<CardEntry>,
    pub notes: Vec<NoteEntry>,
}

impl Default for Chunk {
    fn default() -> (chunk: Self)
        ensures
            !chunk.done,
            chunk.total() == 0,
    {
        Chunk { done: false, revlog: Vec::new(), cards: Vec::new(), notes: Vec::new() }
    }
}

impl Chunk {
    /// How many objects there are.
    pub open spec fn total(self) -> nat {
        self.cards@.len() + self.notes@.len() + self.revlog@.len()
    }

    /// How many objects there are.
    pub fn count(&self) -> (n: usize)
        requires
            self.total() <= usize::MAX,
        ensures
            n == self.total(),
    {
        self.cards.len() + self.notes.len() + self.revlog.len()
    }
}

/// A table of the database in which objects wait to be synced.
#[derive(Debug, Clone, Copy, PartialEq, Eq, Structural)]
pub enum Table {
    Notetypes,
    Decks,
    DeckConfig,
    Revlog,
    Cards,
    Notes,
}

impl Table {
    /// The table's name in the database.
    pub fn name(self) -> (name: &'static str)
        ensures
            name@ == match self {
                Table::Notetypes => "notetypes"@,
                Table::Decks => "decks"@,
                Table::DeckConfig => "deck_config"@,
                Table::Revlog => "revlog"@,
                Table::Cards => "cards"@,
                Table::Notes => "notes"@,
            },
    {
        match self {
            Table::Notetypes => "notetypes",
            Table::Decks => "decks",
            Table::DeckConfig => "deck_config",
            Table::Revlog => "revlog",
            Table::Cards => "cards",
            Table::Notes => "notes",
        }
    }
}

/// Ends the wait of objects: they get the new number, where there is one.
#[derive(Debug)]
pub struct UsnUpdate {
    pub table: Table,
    pub ids: Vec<i64>,
    pub new_usn: Option<Usn>,
}

impl UsnUpdate {
    /// This gives the objects of that table the new number.
    pub open spec fn covers(self, table: Table, ids: Seq<i64>, new_usn: Option<Usn>) -> bool {
        self.table == table && self.ids@ == ids && self.new_usn == new_usn
    }
}

/// The ids of the objects that are still to be sent.
#[derive(Debug)]
pub struct ChunkableIDs {
    pub revlog: Vec<RevlogID>,
    pub cards: Vec<CardID>,
    pub notes: Vec<NoteID>,
}

/// Lists of ids, one for each kind of object.
#[verifier::ext_equal]
pub struct IDLists {
    pub revlog: Seq<RevlogID>,
    pub cards: Seq<CardID>,
    pub notes: Seq<NoteID>,
}

impl View for ChunkableIDs {
    type V = IDLists;

    open spec fn view(&self) -> IDLists {
        IDLists { revlog: self.revlog@, cards: self.cards@, notes: self.notes@ }
    }
}

impl IDLists {
    /// How many ids there are.
    pub open spec fn total(self) -> nat {
        self.revlog.len() + self.cards.len() + self.notes.len()
    }

    /// How many ids are taken in so many rounds, of which each takes one id from every list
    /// that still has one.
    pub open spec fn taken(self, rounds: int) -> int {
        graves::least(rounds, self.revlog.len() as int) + graves::least(
            rounds,
            self.notes.len() as int,
        ) + graves::least(rounds, self.cards.len() as int)
    }

    /// After so many rounds no further one is made: the chunk is full, or no id is left.
    pub open spec fn complete(self, rounds: int) -> bool {
        self.taken(rounds) >= CHUNK_SIZE || self.taken(rounds) == self.total()
    }

    /// The first round count from `rounds` on at which a chunk is complete.
    pub open spec fn rounds_from(self, rounds: int) -> int
        decreases self.total() - rounds,
    {
        if rounds >= self.total() || self.complete(rounds) {
            rounds
        } else {
            self.rounds_from(rounds + 1)
        }
    }

    /// The number of rounds that are made for a chunk.
    pub open spec fn rounds(self) -> int {
        self.rounds_from(0)
    }

    /// The ids taken in so many rounds, from the end of each list.
    pub open spec fn picked_in(self, rounds: int) -> IDLists {
        IDLists {
            revlog: graves::popped(
                self.revlog,
                graves::least(rounds, self.revlog.len() as int),
            ),
            cards: graves::popped(self.cards, graves::least(rounds, self.cards.len() as int)),
            notes: graves::popped(self.notes, graves::least(rounds, self.notes.len() as int)),
        }
    }

    /// The ids left after so many rounds.
    pub open spec fn left_after(self, rounds: int) -> IDLists {
        IDLists {
            revlog: graves::unpopped(
                self.revlog,
                graves::least(rounds, self.revlog.len() as int),
            ),
            cards: graves::unpopped(self.cards, graves::least(rounds, self.cards.len() as int)),
            notes: graves::unpopped(self.notes, graves::least(rounds, self.notes.len() as int)),
        }
    }

    /// The ids of the next chunk.
    pub open spec fn picked(self) -> IDLists {
        self.picked_in(self.rounds())
    }

    /// The ids left once the next chunk is taken.
    pub open spec fn left(self) -> IDLists {
        self.left_after(self.rounds())
    }

    /// The next chunk is the last: it is not full.
    pub open spec fn last(self) -> bool {
        self.picked().total() < CHUNK_SIZE
    }

    /// The ids of the chunks that are taken up to the last one.
    pub open spec fn chunks(self) -> Seq<IDLists>
        decreases self.total(),
    {
        if self.last() || self.left().total() >= self.total() {
            seq![self.picked()]
        } else {
            seq![self.picked()] + self.left().chunks()
        }
    }
}

proof fn lemma_rounds(all: IDLists, rounds: int)
    requires
        0 <= rounds <= all.total(),
        forall|k: int| 0 <= k < rounds ==> !#[trigger] all.complete(k),
    ensures
        rounds <= all.rounds_from(rounds) <= all.total(),
        all.complete(all.rounds_from(rounds)),
        forall|k: int| 0 <= k < all.rounds_from(rounds) ==> !#[trigger] all.complete(k),
    decreases all.total() - rounds,
{
    if rounds < all.total() && !all.complete(rounds) {
        lemma_rounds(all, rounds + 1);
    }
}

/// Rounds are made until the chunk is complete, and no further.
pub proof fn lemma_rounds_are_made(all: IDLists)
    ensures
        0 <= all.rounds() <= all.total(),
        all.complete(all.rounds()),
        all.rounds() > 0 ==> !all.complete(all.rounds() - 1),
{
    lemma_rounds(all, 0);
}

/// A chunk holds at most two objects over `CHUNK_SIZE`. It is the last exactly when it holds
/// fewer than `CHUNK_SIZE`, and then nothing is left to send.
pub proof fn law_last_chunk_leaves_nothing(all: IDLists)
    ensures
        all.picked().total() < CHUNK_SIZE + 3,
        all.picked().total() + all.left().total() == all.total(),
        all.last() ==> all.left().total() == 0,
        !all.last() ==> all.picked().total() >= CHUNK_SIZE,
{
    lemma_rounds(all, 0);
    let rounds = all.rounds();
    assert(all.picked().total() == all.taken(rounds));
    if rounds > 0 {
        assert(!all.complete(rounds - 1));
    }
}

/// The chunks up to the last one carry every id exactly once, in the order in which it is
/// popped. All but the last are full, and the last is not.
pub proof fn law_chunks_carry_everything(all: IDLists)
    ensures
        all.chunks().map_values(|c: IDLists| c.revlog).flatten() == all.revlog.reverse(),
        all.chunks().map_values(|c: IDLists| c.cards).flatten() == all.cards.reverse(),
        all.chunks().map_values(|c: IDLists| c.notes).flatten() == all.notes.reverse(),
        all.chunks().len() > 0,
        all.chunks().last().total() < CHUNK_SIZE,
        forall|i: int|
            0 <= i < all.chunks().len() - 1 ==> CHUNK_SIZE <= (
            #[trigger] all.chunks()[i]).total() < CHUNK_SIZE + 3,
    decreases all.total(),
{
    let chunks = all.chunks();
    let revlog = chunks.map_values(|c: IDLists| c.revlog);
    let cards = chunks.map_values(|c: IDLists| c.cards);
    let notes = chunks.map_values(|c: IDLists| c.notes);
    let left = all.left();
    let rounds = all.rounds();
    law_last_chunk_leaves_nothing(all);
    lemma_rounds(all, 0);
    graves::lemma_popped_in_turn(all.revlog, graves::least(rounds, all.revlog.len() as int));
    graves::lemma_popped_in_turn(all.cards, graves::least(rounds, all.cards.len() as int));
    graves::lemma_popped_in_turn(all.notes, graves::least(rounds, all.notes.len() as int));
    if all.last() {
        assert(left.revlog.reverse() =~= seq![]);
        assert(left.cards.reverse() =~= seq![]);
        assert(left.notes.reverse() =~= seq![]);
        revlog.lemma_flatten_one_element();
        cards.lemma_flatten_one_element();
        notes.lemma_flatten_one_element();
        assert(revlog.first() + left.revlog.reverse() =~= revlog.first());
        assert(cards.first() + left.cards.reverse() =~= cards.first());
        assert(notes.first() + left.notes.reverse() =~= notes.first());
    } else {
        law_chunks_carry_everything(left);
        assert(revlog.drop_first() =~= left.chunks().map_values(|c: IDLists| c.revlog));
        assert(cards.drop_first() =~= left.chunks().map_values(|c: IDLists| c.cards));
        assert(notes.drop_first() =~= left.chunks().map_values(|c: IDLists| c.notes));
        assert forall|i: int| 0 <= i < chunks.len() - 1 implies CHUNK_SIZE <= (
        #[trigger] chunks[i]).total() < CHUNK_SIZE + 3 by {
            if i > 0 {
                assert(chunks[i] == left.chunks()[i - 1]);
            }
        }
    }
}

impl ChunkableIDs {
    /// Takes out the ids of the next chunk, by turns from the end of each list, and says
    /// whether the chunk is the last.
    pub fn take_chunk(&mut self) -> (res: (ChunkableIDs, bool))
        ensures
            res.0@ == old(self)@.picked(),
            res.1 == old(self)@.last(),
            final(self)@ == old(self)@.left(),
    {
        let ghost all = self@;
        let mut limit: i32 = CHUNK_SIZE as i32;
        let mut revlog: Vec<RevlogID> = Vec::new();
        let mut cards: Vec<CardID> = Vec::new();
        let mut notes: Vec<NoteID> = Vec::new();
        let ghost mut rounds: int = 0;
        proof {
            assert(all.picked_in(0) =~= IDLists { revlog: revlog@, cards: cards@, notes: notes@ });
            assert(all.left_after(0) =~= self@);
        }
        while limit > 0
            invariant_except_break
                all.rounds() == all.rounds_from(rounds),
                limit <= 0 ==> all.complete(rounds),
            invariant
                0 <= rounds,
                limit == CHUNK_SIZE - all.taken(rounds),
                -2 <= limit <= CHUNK_SIZE,
                all.picked_in(rounds) == (IDLists {
                    revlog: revlog@,
                    cards: cards@,
                    notes: notes@,
                }),
                all.left_after(rounds) == self@,
            ensures
                all.rounds() == rounds,
            decreases self@.total(), limit,
        {
            let last_limit = limit;
            if let Some(id) = self.revlog.pop() {
                revlog.push(id);
                limit -= 1;
            }
            if let Some(id) = self.notes.pop() {
                notes.push(id);
                limit -= 1;
            }
            if let Some(id) = self.cards.pop() {
                cards.push(id);
                limit -= 1;
            }
            if limit == last_limit {
                assert(all.complete(rounds));
                break;
            }
            proof {
                rounds = rounds + 1;
                assert(all.picked_in(rounds) =~= IDLists {
                    revlog: revlog@,
                    cards: cards@,
                    notes: notes@,
                });
                assert(all.left_after(rounds) =~= self@);
            }
        }
        (ChunkableIDs { revlog, cards, notes }, limit > 0)
    }
}

/// The next chunk of objects to send, once it has been read.
///
/// First the `updates` are to be carried out in order. Then the objects named in `ids` are
/// to be read, and handed to `into_chunk` in the order of their ids.
#[derive(Debug)]
pub struct ChunkRead {
    pub updates: Vec<UsnUpdate>,
    pub ids: ChunkableIDs,
    pub done: bool,
    pub new_usn: Option<Usn>,
}

impl ChunkRead {
    /// This reads the next chunk out of `ids`. Only a client ends the wait of what it sends.
    pub open spec fn reads(self, server: bool, ids: IDLists, new_usn: Option<Usn>) -> bool {
        &&& self.ids@ == ids.picked()
        &&& self.done == ids.last()
        &&& self.new_usn == new_usn
        &&& server ==> self.updates@.len() == 0
        &&& !server ==> {
            &&& self.updates@.len() == 3
            &&& self.updates@[0].covers(Table::Revlog, ids::numbers(ids.picked().revlog), new_usn)
            &&& self.updates@[1].covers(Table::Cards, ids::numbers(ids.picked().cards), new_usn)
            &&& self.updates@[2].covers(Table::Notes, ids::numbers(ids.picked().notes), new_usn)
        }
    }
}

/// These read the chunks out of `ids` one after the other, up to the last.
pub open spec fn read_in_turn(
    server: bool,
    ids: IDLists,
    reads: Seq<ChunkRead>,
    new_usn: Option<Usn>,
) -> bool
    decreases reads.len(),
{
    &&& reads.len() > 0
    &&& reads[0].reads(server, ids, new_usn)
    &&& if ids.last() {
        reads.len() == 1
    } else {
        read_in_turn(server, ids.left(), reads.drop_first(), new_usn)
    }
}

impl Collection {
    /// Fetch a chunk of ids from `ids`, saying what is to be done to get the referenced
    /// objects.
    pub fn get_chunk(&self, ids: &mut ChunkableIDs, new_usn: Option<Usn>) -> (read: ChunkRead)
        ensures
            read.reads(self.server, old(ids)@, new_usn),
            final(ids)@ == old(ids)@.left(),
    {
        // get a bunch of IDs
        let (picked, done) = ids.take_chunk();
        // remove pending status
        let mut updates: Vec<UsnUpdate> = Vec::new();
        if !self.server {
            updates.push(
                UsnUpdate { table: Table::Revlog, ids: raw_ids(&picked.revlog), new_usn },
            );
            updates.push(UsnUpdate { table: Table::Cards, ids: raw_ids(&picked.cards), new_usn });
            updates.push(UsnUpdate { table: Table::Notes, ids: raw_ids(&picked.notes), new_usn });
        }
        ChunkRead { updates, ids: picked, done, new_usn }
    }
}

/// Every object was found.
pub open spec fn all_found<T>(objects: Seq<Option<T>>) -> bool {
    forall|i: int| 0 <= i < objects.len() ==> (#[trigger] objects[i]) is Some
}

/// A review as it is sent.
pub open spec fn sent_review(e: ReviewLogEntry, new_usn: Option<Usn>) -> ReviewLogEntry {
    ReviewLogEntry { usn: ids::stamp(e.usn, new_usn), ..e }
}

/// A card as it is sent.
pub open spec fn sent_card(card: Card, new_usn: Option<Usn>) -> CardEntry {
    CardEntry::of(Card { usn: ids::stamp(card.usn, new_usn), ..card })
}

/// The entry is the note as it is sent.
pub open spec fn is_sent_note(entry: NoteEntry, note: Note, new_usn: Option<Usn>) -> bool {
    entry.is_from(Note { usn: ids::stamp(note.usn, new_usn), ..note })
}

/// The chunk holds the objects, each with its new number.
pub open spec fn packed(
    revlog: Seq<Option<ReviewLogEntry>>,
    cards: Seq<Option<Card>>,
    notes: Seq<Option<Note>>,
    new_usn: Option<Usn>,
    chunk: Chunk,
) -> bool {
    &&& chunk.revlog@ == revlog.map_values(
        |e: Option<ReviewLogEntry>| sent_review(e->0, new_usn),
    )
    &&& chunk.cards@ == cards.map_values(|c: Option<Card>| sent_card(c->0, new_usn))
    &&& chunk.notes@.len() == notes.len()
    &&& forall|i: int|
        0 <= i < notes.len() ==> is_sent_note(#[trigger] chunk.notes@[i], notes[i]->0, new_usn)
}

impl ChunkRead {
    /// The chunk holds the objects, each with its new number, and says whether it is the last.
    pub open spec fn packs(
        self,
        revlog: Seq<Option<ReviewLogEntry>>,
        cards: Seq<Option<Card>>,
        notes: Seq<Option<Note>>,
        chunk: Chunk,
    ) -> bool {
        chunk.done == self.done && packed(revlog, cards, notes, self.new_usn, chunk)
    }

    /// The chunk, given the objects that were read.
    pub fn into_chunk(
        self,
        revlog: Vec<Option<ReviewLogEntry>>,
        cards: Vec<Option<Card>>,
        notes: Vec<Option<Note>>,
    ) -> (chunk: Chunk)
        requires
            all_found(revlog@),
            all_found(cards@),
            all_found(notes@),
        ensures
            self.packs(revlog@, cards@, notes@, chunk),
    {
        let new_usn = self.new_usn;
        let mut chunk = Chunk::default();
        chunk.done = self.done;
        for e in it: revlog
            invariant
                it.seq() == revlog@,
                all_found(revlog@),
                new_usn == self.new_usn,
                chunk.done == self.done,
                chunk.revlog@ =~= revlog@.take(it.index() as int).map_values(
                    |e: Option<ReviewLogEntry>| sent_review(e->0, self.new_usn),
                ),
                chunk.cards@.len() == 0,
                chunk.notes@.len() == 0,
        {
            assert(revlog@[it.index() as int] is Some);
            let mut e = e.unwrap();
            e.usn = new_usn.unwrap_or(e.usn);
            chunk.revlog.push(e);
        }
        assert(revlog@.take(revlog@.len() as int) =~= revlog@);
        let ghost reviews = chunk.revlog@;
        for card in it: cards
            invariant
                it.seq() == cards@,
                all_found(cards@),
                new_usn == self.new_usn,
                chunk.done == self.done,
                chunk.revlog@ == reviews,
                chunk.cards@ =~= cards@.take(it.index() as int).map_values(
                    |c: Option<Card>| sent_card(c->0, self.new_usn),
                ),
                chunk.notes@.len() == 0,
        {
            assert(cards@[it.index() as int] is Some);
            let mut e = CardEntry::from(card.unwrap());
            e.usn = new_usn.unwrap_or(e.usn);
            chunk.cards.push(e);
        }
        assert(cards@.take(cards@.len() as int) =~= cards@);
        let ghost entries = chunk.cards@;
        for note in it: notes
            invariant
                it.seq() == notes@,
                all_found(notes@),
                new_usn == self.new_usn,
                chunk.done == self.done,
                chunk.revlog@ == reviews,
                chunk.cards@ == entries,
                chunk.notes@.len() == it.index(),
                forall|i: int|
                    0 <= i < it.index() ==> is_sent_note(
                        #[trigger] chunk.notes@[i],
                        notes@[i]->0,
                        self.new_usn,
                    ),
        {
            assert(notes@[it.index() as int] is Some);
            let mut e = NoteEntry::from(note.unwrap());
            e.usn = new_usn.unwrap_or(e.usn);
            chunk.notes.push(e);
        }
        chunk
    }
}

/// Where there is a new number, every object of a chunk that is sent has it.
pub proof fn law_sent_chunk_carries_the_new_number(
    read: ChunkRead,
    revlog: Seq<Option<ReviewLogEntry>>,
    cards: Seq<Option<Card>>,
    notes: Seq<Option<Note>>,
    chunk: Chunk,
    usn: Usn,
)
    requires
        read.packs(revlog, cards, notes, chunk),
        read.new_usn == Some(usn),
    ensures
        forall|i: int| 0 <= i < chunk.revlog@.len() ==> (#[trigger] chunk.revlog@[i]).usn == usn,
        forall|i: int| 0 <= i < chunk.cards@.len() ==> (#[trigger] chunk.cards@[i]).usn == usn,
        forall|i: int| 0 <= i < chunk.notes@.len() ==> (#[trigger] chunk.notes@[i]).usn == usn,
{
}

} // verus!
