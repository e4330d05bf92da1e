//! On the portions in which objects and removals are handed over.

use crate::chunk;
use crate::chunk::{Chunk, ChunkRead, ChunkableIDs, Table};
use crate::collection::Collection;
use crate::graves;
use crate::graves::{GraveOp, Graves};
use crate::ids::{raw_ids, CardID, NoteID, RevlogID, Usn};
use crate::laws::objects;
use crate::objects::{Card, Note, ReviewLogEntry};
use crate::text::{join_fields, join_tags};
use vstd::prelude::*;

verus! {

/// The smaller of the two.
pub open spec fn smaller(a: int, b: int) -> int {
    if a < b {
        a
    } else {
        b
    }
}

/// Items were taken from the end, the very last one first, and the others are left as they were.
pub open spec fn taken_from_the_end<T>(before: Seq<T>, taken: Seq<T>, left: Seq<T>) -> bool {
    &&& taken.len() + left.len() == before.len()
    &&& forall|i: int|
        0 <= i < taken.len() ==> #[trigger] taken[i] == before[before.len() - 1 - i]
    &&& forall|i: int| 0 <= i < left.len() ==> #[trigger] left[i] == before[i]
}

/// How many removed objects there are.
pub open spec fn removed(graves: Graves) -> int {
    (graves.cards@.len() + graves.notes@.len() + graves.decks@.len()) as int
}

/// The chunk was taken out of the removals, and the rest is left: as many as there are up to 250,
/// and a note only once there are no cards left, a deck only once there are no notes left either.
pub open spec fn chunk_of_graves(before: Graves, chunk: Graves, left: Graves) -> bool {
    &&& taken_from_the_end(before.cards@, chunk.cards@, left.cards@)
    &&& taken_from_the_end(before.notes@, chunk.notes@, left.notes@)
    &&& taken_from_the_end(before.decks@, chunk.decks@, left.decks@)
    &&& removed(chunk) == smaller(250, removed(before))
    &&& left.cards@.len() > 0 ==> chunk.notes@.len() == 0 && chunk.decks@.len() == 0
    &&& left.notes@.len() > 0 ==> chunk.decks@.len() == 0
}

/// A chunk of removals is what `chunk_of_graves` says, and there is one as long as anything is
/// left.
pub proof fn law_removals_are_taken_out_in_chunks(before: Graves, after: Graves, res: Option<Graves>)
    requires
        exists|g: &mut Graves|
            *g == before && *final(g) == after && #[trigger] call_ensures(
                Graves::take_chunk,
                (g,),
                res,
            ),
    ensures
        res is None <==> removed(before) == 0,
        res is None ==> removed(after) == 0,
        res matches Some(chunk) ==> chunk_of_graves(before, chunk, after),
{
}

/// The count of removals is the sum of the three kinds, and that of the next chunk is at most
/// 250.
pub proof fn law_removals_are_counted(graves: Graves, n: usize, next: usize)
    requires
        call_ensures(Graves::count, (&graves,), n),
        call_ensures(Graves::chunk_count, (&graves,), next),
        removed(graves) <= usize::MAX,
    ensures
        n == removed(graves),
        next == smaller(250, removed(graves)),
{
}

/// The steps remove each note, then each card, then each deck that is named, and put each
/// removal on record right after it is made.
pub open spec fn buried(graves: Graves, usn: Usn, ops: Seq<GraveOp>) -> bool {
    let notes = graves.notes@;
    let cards = graves.cards@;
    let decks = graves.decks@;
    &&& ops.len() == 2 * removed(graves)
    &&& forall|i: int|
        0 <= i < notes.len() ==> ops[2 * i] == GraveOp::RemoveNote(#[trigger] notes[i]) && ops[2 * i
            + 1] == GraveOp::AddNoteGrave(notes[i], usn)
    &&& forall|i: int|
        0 <= i < cards.len() ==> ops[2 * (notes.len() + i)] == GraveOp::RemoveCard(
            #[trigger] cards[i],
        ) && ops[2 * (notes.len() + i) + 1] == GraveOp::AddCardGrave(cards[i], usn)
    &&& forall|i: int|
        0 <= i < decks.len() ==> ops[2 * (notes.len() + cards.len() + i)] == GraveOp::RemoveDeck(
            #[trigger] decks[i],
        ) && ops[2 * (notes.len() + cards.len() + i) + 1] == GraveOp::AddDeckGrave(decks[i], usn)
}

proof fn lemma_pairs<T>(s: Seq<T>, f: spec_fn(T) -> Seq<GraveOp>)
    requires
        forall|x: T| (#[trigger] f(x)).len() == 2,
    ensures
        s.flat_map(f).len() == 2 * s.len(),
        forall|i: int|
            0 <= i < s.len() ==> s.flat_map(f)[2 * i] == f(#[trigger] s[i])[0] && s.flat_map(f)[2
                * i + 1] == f(s[i])[1],
    decreases s.len(),
{
    if s.len() > 0 {
        let front = s.drop_last();
        lemma_pairs(front, f);
        assert(front.push(s.last()) =~= s);
        front.lemma_flat_map_push(f, s.last());
        assert(s.flat_map(f) == front.flat_map(f) + f(s.last()));
        assert forall|i: int| 0 <= i < s.len() implies s.flat_map(f)[2 * i] == f(
            #[trigger] s[i],
        )[0] && s.flat_map(f)[2 * i + 1] == f(s[i])[1] by {
            if i < front.len() {
                assert(front[i] == s[i]);
            }
        }
    } else {
        assert(s.flat_map(f).len() == 0) by {
            assert(s.map_values(f) =~= Seq::empty());
        }
    }
}

pub(crate) proof fn lemma_burials(graves: Graves, usn: Usn)
    ensures
        buried(graves, usn, graves::burials(graves@, usn)),
{
    lemma_pairs(graves.notes@, graves::note_burial(usn));
    lemma_pairs(graves.cards@, graves::card_burial(usn));
    lemma_pairs(graves.decks@, graves::deck_burial(usn));
}

/// The server's removals are carried out as `buried` says.
pub proof fn law_removals_are_carried_out_one_by_one(
    col: Collection,
    graves: Graves,
    latest_usn: Usn,
    ops: Vec<GraveOp>,
)
    requires
        call_ensures(Collection::apply_graves, (&col, &graves, latest_usn), ops),
    ensures
        buried(graves, latest_usn, ops@),
{
    lemma_burials(graves, latest_usn);
}

/// How many ids are taken in so many rounds, of which each takes one from every list that has one.
pub open spec fn taken_in_rounds(ids: ChunkableIDs, rounds: int) -> int {
    smaller(rounds, ids.revlog@.len() as int) + smaller(rounds, ids.cards@.len() as int) + smaller(
        rounds,
        ids.notes@.len() as int,
    )
}

/// So many rounds were made, and no more than needed: before the last of them there were fewer
/// than 250 ids, and after it there are at least 250, or all.
pub open spec fn rounds_made(
    before: ChunkableIDs,
    picked: ChunkableIDs,
    left: ChunkableIDs,
    rounds: int,
) -> bool {
    &&& 0 <= rounds
    &&& picked.revlog@.len() == smaller(rounds, before.revlog@.len() as int)
    &&& picked.cards@.len() == smaller(rounds, before.cards@.len() as int)
    &&& picked.notes@.len() == smaller(rounds, before.notes@.len() as int)
    &&& rounds > 0 ==> taken_in_rounds(before, rounds - 1) < 250
    &&& taken_in_rounds(before, rounds) >= 250 || left.revlog@.len() + left.cards@.len()
        + left.notes@.len() == 0
}

/// The ids of a chunk were picked by turns from the ends of the lists, and the rest is left. It
/// is the last chunk exactly if it has fewer than 250 ids.
pub open spec fn dealt(
    before: ChunkableIDs,
    picked: ChunkableIDs,
    left: ChunkableIDs,
    done: bool,
) -> bool {
    &&& taken_from_the_end(before.revlog@, picked.revlog@, left.revlog@)
    &&& taken_from_the_end(before.cards@, picked.cards@, left.cards@)
    &&& taken_from_the_end(before.notes@, picked.notes@, left.notes@)
    &&& exists|rounds: int| rounds_made(before, picked, left, rounds)
    &&& done <==> picked.revlog@.len() + picked.cards@.len() + picked.notes@.len() < 250
}

pub(crate) proof fn lemma_dealt(
    before: ChunkableIDs,
    picked: ChunkableIDs,
    left: ChunkableIDs,
    done: bool,
)
    requires
        picked@ == before@.picked(),
        left@ == before@.left(),
        done == before@.last(),
    ensures
        dealt(before, picked, left, done),
{
    let all = before@;
    let rounds = all.rounds();
    chunk::law_last_chunk_leaves_nothing(all);
    chunk::lemma_rounds_are_made(all);
    assert(taken_in_rounds(before, rounds) == all.taken(rounds));
    if rounds > 0 {
        assert(taken_in_rounds(before, rounds - 1) == all.taken(rounds - 1));
    }
    assert(picked.revlog@ == all.picked().revlog);
    assert(picked.cards@ == all.picked().cards);
    assert(picked.notes@ == all.picked().notes);
    assert(left.revlog@ == all.left().revlog);
    assert(left.cards@ == all.left().cards);
    assert(left.notes@ == all.left().notes);
    assert(rounds_made(before, picked, left, rounds));
}

/// The ids of a chunk are taken out as `dealt` says.
pub proof fn law_ids_are_dealt_out_by_turns(
    before: ChunkableIDs,
    after: ChunkableIDs,
    res: (ChunkableIDs, bool),
)
    requires
        exists|ids: &mut ChunkableIDs|
            *ids == before && *final(ids) == after && #[trigger] call_ensures(
                ChunkableIDs::take_chunk,
                (ids,),
                res,
            ),
    ensures
        dealt(before, res.0, after, res.1),
{
    lemma_dealt(before, res.0, after, res.1);
}

/// A client ends the wait of exactly the objects that it is about to read, under the new number;
/// a server leaves the numbers alone.
pub open spec fn ends_the_wait(read: ChunkRead, server: bool, new_usn: Option<Usn>) -> bool {
    &&& read.new_usn == new_usn
    &&& server ==> read.updates@.len() == 0
    &&& !server ==> {
        &&& read.updates@.len() == 3
        &&& read.updates@[0].table == Table::Revlog
        &&& read.updates@[1].table == Table::Cards
        &&& read.updates@[2].table == Table::Notes
        &&& forall|i: int| 0 <= i < 3 ==> (#[trigger] read.updates@[i]).new_usn == new_usn
        &&& read.updates@[0].ids@ == read.ids.revlog@.map_values(|id: RevlogID| id.0)
        &&& read.updates@[1].ids@ == read.ids.cards@.map_values(|id: CardID| id.0)
        &&& read.updates@[2].ids@ == read.ids.notes@.map_values(|id: NoteID| id.0)
    }
}

pub(crate) proof fn lemma_reads(
    server: bool,
    before: ChunkableIDs,
    new_usn: Option<Usn>,
    left: ChunkableIDs,
    read: ChunkRead,
)
    requires
        read.reads(server, before@, new_usn),
        left@ == before@.left(),
    ensures
        dealt(before, read.ids, left, read.done),
        ends_the_wait(read, server, new_usn),
{
    lemma_dealt(before, read.ids, left, read.done);
    assert(read.ids.revlog@ == before@.picked().revlog);
    assert(read.ids.cards@ == before@.picked().cards);
    assert(read.ids.notes@ == before@.picked().notes);
    if !server {
        assert(read.updates@[0].ids@ =~= read.ids.revlog@.map_values(|id: RevlogID| id.0));
        assert(read.updates@[1].ids@ =~= read.ids.cards@.map_values(|id: CardID| id.0));
        assert(read.updates@[2].ids@ =~= read.ids.notes@.map_values(|id: NoteID| id.0));
    }
}

/// A chunk that is to be read has the ids that `dealt` says, and ends their wait as
/// `ends_the_wait` says.
pub proof fn law_chunk_is_read_by_its_ids(
    col: Collection,
    before: ChunkableIDs,
    after: ChunkableIDs,
    new_usn: Option<Usn>,
    read: ChunkRead,
)
    requires
        exists|ids: &mut ChunkableIDs|
            *ids == before && *final(ids) == after && #[trigger] call_ensures(
                Collection::get_chunk,
                (&col, ids, new_usn),
                read,
            ),
    ensures
        dealt(before, read.ids, after, read.done),
        ends_the_wait(read, col.server, new_usn),
{
    lemma_reads(col.server, before, new_usn, after, read);
}

/// The ids that are still to be sent are those that were found, each list in its place.
pub proof fn law_waiting_ids_are_those_found(
    col: Collection,
    revlog: Vec<RevlogID>,
    cards: Vec<CardID>,
    notes: Vec<NoteID>,
    ids: ChunkableIDs,
)
    requires
        call_ensures(Collection::get_chunkable_ids, (&col, revlog, cards, notes), ids),
    ensures
        ids.revlog@ == revlog@,
        ids.cards@ == cards@,
        ids.notes@ == notes@,
{
}

/// Ids go to the storage as their numbers, in order.
pub proof fn law_ids_go_by_their_numbers(ids: Vec<CardID>, res: Vec<i64>)
    requires
        call_ensures(raw_ids::<CardID>, (&ids,), res),
    ensures
        res@.len() == ids@.len(),
        forall|i: int| 0 <= i < ids@.len() ==> #[trigger] res@[i] == ids@[i].0,
{
}

/// The number is the new one where there is one, and else the object's own.
pub open spec fn number_sent(sent: Usn, own: Usn, new_usn: Option<Usn>) -> bool {
    &&& new_usn is Some ==> sent == new_usn->0
    &&& new_usn is None ==> sent == own
}

/// A chunk that is sent holds as many reviews, cards and notes as were read, and says whether it
/// is the last.
pub proof fn law_chunk_holds_what_was_read(
    read: ChunkRead,
    revlog: Vec<Option<ReviewLogEntry>>,
    cards: Vec<Option<Card>>,
    notes: Vec<Option<Note>>,
    chunk: Chunk,
)
    requires
        call_ensures(ChunkRead::into_chunk, (read, revlog, cards, notes), chunk),
    ensures
        chunk.done == read.done,
        chunk.revlog@.len() == revlog@.len(),
        chunk.cards@.len() == cards@.len(),
        chunk.notes@.len() == notes@.len(),
{
}

/// A review is sent as it is stored, but for the number.
pub proof fn law_review_is_sent_as_stored(
    read: ChunkRead,
    revlog: Vec<Option<ReviewLogEntry>>,
    cards: Vec<Option<Card>>,
    notes: Vec<Option<Note>>,
    chunk: Chunk,
    i: int,
)
    requires
        call_ensures(ChunkRead::into_chunk, (read, revlog, cards, notes), chunk),
        0 <= i < revlog@.len(),
    ensures
        ({
            let sent = chunk.revlog@[i];
            let own = revlog@[i]->0;
            &&& sent.id == own.id
            &&& sent.cid == own.cid
            &&& sent.ease == own.ease
            &&& sent.interval == own.interval
            &&& sent.last_interval == own.last_interval
            &&& sent.factor == own.factor
            &&& sent.time == own.time
            &&& sent.kind == own.kind
            &&& number_sent(sent.usn, own.usn, read.new_usn)
        }),
{
}

/// A card is sent as it is stored, but for the number.
pub proof fn law_card_is_sent_as_stored(
    read: ChunkRead,
    revlog: Vec<Option<ReviewLogEntry>>,
    cards: Vec<Option<Card>>,
    notes: Vec<Option<Note>>,
    chunk: Chunk,
    i: int,
)
    requires
        call_ensures(ChunkRead::into_chunk, (read, revlog, cards, notes), chunk),
        0 <= i < cards@.len(),
    ensures
        objects::same_card(cards@[i]->0, chunk.cards@[i]),
        number_sent(chunk.cards@[i].usn, cards@[i]->0.usn, read.new_usn),
{
}

/// A note is sent as it is stored, with its tags and fields joined, but for the number.
pub proof fn law_note_is_sent_as_stored(
    read: ChunkRead,
    revlog: Vec<Option<ReviewLogEntry>>,
    cards: Vec<Option<Card>>,
    notes: Vec<Option<Note>>,
    chunk: Chunk,
    i: int,
    tags: String,
    fields: String,
)
    requires
        call_ensures(ChunkRead::into_chunk, (read, revlog, cards, notes), chunk),
        0 <= i < notes@.len(),
        call_ensures(join_tags, (&notes@[i]->0.tags,), tags),
        call_ensures(join_fields, (&notes@[i]->0.fields,), fields),
    ensures
        ({
            let sent = chunk.notes@[i];
            let own = notes@[i]->0;
            &&& sent.id == own.id
            &&& sent.guid == own.guid
            &&& sent.ntid == own.ntid
            &&& sent.mtime == own.mtime
            &&& number_sent(sent.usn, own.usn, read.new_usn)
            &&& sent.tags@ == tags@
            &&& sent.fields@ == fields@
            &&& sent.sfld@.len() == 0
            &&& sent.csum@.len() == 0
            &&& sent.flags == 0
            &&& sent.data@.len() == 0
        }),
{
    assert(chunk::is_sent_note(chunk.notes@[i], notes@[i]->0, read.new_usn));
}

/// The count of a chunk's objects is the sum of the three kinds.
pub proof fn law_objects_of_a_chunk_are_counted(chunk: Chunk, n: usize)
    requires
        call_ensures(Chunk::count, (&chunk,), n),
        chunk.revlog@.len() + chunk.cards@.len() + chunk.notes@.len() <= usize::MAX,
    ensures
        n == chunk.revlog@.len() + chunk.cards@.len() + chunk.notes@.len(),
{
}

/// Every table goes by its own name.
pub proof fn law_tables_have_their_names(table: Table, name: &'static str)
    requires
        call_ensures(Table::name, (table,), name),
    ensures
        table == Table::Notetypes ==> name@ == "notetypes"@,
        table == Table::Decks ==> name@ == "decks"@,
        table == Table::DeckConfig ==> name@ == "deck_config"@,
        table == Table::Revlog ==> name@ == "revlog"@,
        table == Table::Cards ==> name@ == "cards"@,
        table == Table::Notes ==> name@ == "notes"@,
{
}

/// Every object of a chunk is there.
pub open spec fn none_missing<T>(objects: Seq<Option<T>>) -> bool {
    forall|i: int| 0 <= i < objects.len() ==> (#[trigger] objects[i]) is Some
}

/// Whatever was read makes a chunk, as long as nothing is missing, and whatever there is can be
/// counted, as long as the count is not too large for the machine.
pub proof fn law_nothing_else_is_asked_of_a_chunk(
    read: ChunkRead,
    revlog: Vec<Option<ReviewLogEntry>>,
    cards: Vec<Option<Card>>,
    notes: Vec<Option<Note>>,
    chunk: Chunk,
    graves: Graves,
)
    ensures
        none_missing(revlog@) && none_missing(cards@) && none_missing(notes@) ==> call_requires(
            ChunkRead::into_chunk,
            (read, revlog, cards, notes),
        ),
        chunk.revlog@.len() + chunk.cards@.len() + chunk.notes@.len() <= usize::MAX
            ==> call_requires(Chunk::count, (&chunk,)),
        removed(graves) <= usize::MAX ==> call_requires(Graves::count, (&graves,)),
{
}

/// A chunk, or removals, that nothing was put into are empty, and such a chunk is not the last.
pub proof fn law_empty_portions_are_empty(chunk: Chunk, graves: Graves)
    requires
        call_ensures(<Chunk as Default>::default, (), chunk),
        call_ensures(<Graves as Default>::default, (), graves),
    ensures
        !chunk.done,
        chunk.revlog@.len() == 0,
        chunk.cards@.len() == 0,
        chunk.notes@.len() == 0,
        removed(graves) == 0,
{
}

} // verus!
