//! Records of removed objects, and how they are handed over in chunks.

use crate::collection::Collection;
use crate::ids::{CardID, DeckID, NoteID, Usn};
use vstd::prelude::*;

verus! {

/// The number of objects that a chunk is filled up to.
pub const CHUNK_SIZE: usize = 250;

/// The ids of removed objects.
#[derive(Debug)]
pub struct Graves {
    pub cards: Vec<CardID>,
    pub decks: Vec<DeckID>,
    pub notes: Vec<NoteID>,
}

/// The contents of `Graves`.
#[verifier::ext_equal]
pub struct GravesView {
    pub cards: Seq<CardID>,
    pub decks: Seq<DeckID>,
    pub notes: Seq<NoteID>,
}

impl View for Graves {
    type V = GravesView;

    open spec fn view(&self) -> GravesView {
        GravesView { cards: self.cards@, decks: self.decks@, notes: self.notes@ }
    }
}

/// The smaller of the two.
pub open spec fn least(a: int, b: int) -> int {
    if a <= b {
        a
    } else {
        b
    }
}

/// The last `n` items, the very last one first: what `n` pops give.
pub open spec fn popped<T>(s: Seq<T>, n: int) -> Seq<T> {
    s.skip(s.len() - n).reverse()
}

/// What `n` pops leave.
pub open spec fn unpopped<T>(s: Seq<T>, n: int) -> Seq<T> {
    s.take(s.len() - n)
}

impl GravesView {
    /// How many objects there are.
    pub open spec fn total(self) -> nat {
        self.cards.len() + self.notes.len() + self.decks.len()
    }

    /// How many cards the next chunk holds: as many as there are and fit.
    pub open spec fn cards_taken(self) -> int {
        least(CHUNK_SIZE as int, self.cards.len() as int)
    }

    /// How many notes the next chunk holds: as many as there are and fit beside the cards.
    pub open spec fn notes_taken(self) -> int {
        least(CHUNK_SIZE - self.cards_taken(), self.notes.len() as int)
    }

    /// How many decks the next chunk holds: as many as there are and fit beside the rest.
    pub open spec fn decks_taken(self) -> int {
        least(CHUNK_SIZE - self.cards_taken() - self.notes_taken(), self.decks.len() as int)
    }

    /// The next chunk.
    pub open spec fn chunk(self) -> GravesView {
        GravesView {
            cards: popped(self.cards, self.cards_taken()),
            decks: popped(self.decks, self.decks_taken()),
            notes: popped(self.notes, self.notes_taken()),
        }
    }

    /// What is left once the next chunk is taken.
    pub open spec fn left(self) -> GravesView {
        GravesView {
            cards: unpopped(self.cards, self.cards_taken()),
            decks: unpopped(self.decks, self.decks_taken()),
            notes: unpopped(self.notes, self.notes_taken()),
        }
    }

    /// The chunks that come out when they are taken until there are none.
    pub open spec fn chunks(self) -> Seq<GravesView>
        decreases self.total(),
    {
        if self.total() == 0 {
            seq![]
        } else {
            seq![self.chunk()] + self.left().chunks()
        }
    }
}

impl Default for Graves {
    fn default() -> (graves: Self)
        ensures
            graves@.total() == 0,
    {
        Graves { cards: Vec::new(), decks: Vec::new(), notes: Vec::new() }
    }
}

/// Pops items until there are `limit` of them or none is left.
fn pop_up_to<T>(from: &mut Vec<T>, limit: usize) -> (out: Vec<T>)
    ensures
        out@ == popped(old(from)@, least(limit as int, old(from)@.len() as int)),
        final(from)@ == unpopped(old(from)@, least(limit as int, old(from)@.len() as int)),
{
    let ghost all = from@;
    let mut out: Vec<T> = Vec::new();
    assert(out@ =~= popped(all, 0));
    assert(from@ =~= unpopped(all, 0));
    while out.len() < limit && from.len() > 0
        invariant
            out@.len() <= limit,
            out@.len() <= all.len(),
            out@ == popped(all, out@.len() as int),
            from@ == unpopped(all, out@.len() as int),
        decreases from@.len(),
    {
        let ghost n = out@.len() as int;
        if let Some(item) = from.pop() {
            out.push(item);
        }
        assert(out@ =~= popped(all, n + 1));
        assert(from@ =~= unpopped(all, n + 1));
    }
    out
}

impl Graves {
    /// Takes out up to `CHUNK_SIZE` objects: cards first, then notes, then decks, each from
    /// the end of its list. There is none only when nothing is left.
    pub fn take_chunk(&mut self) -> (chunk: Option<Graves>)
        ensures
            chunk is None <==> old(self)@.total() == 0,
            chunk is None ==> final(self)@ == old(self)@,
            chunk matches Some(out) ==> out@ == old(self)@.chunk() && final(self)@ == old(
                self,
            )@.left(),
    {
        let ghost before = self@;
        let mut limit: usize = CHUNK_SIZE;
        let cards = pop_up_to(&mut self.cards, limit);
        limit -= cards.len();
        let notes = pop_up_to(&mut self.notes, limit);
        limit -= notes.len();
        let decks = pop_up_to(&mut self.decks, limit);
        limit -= decks.len();
        if limit == CHUNK_SIZE {
            assert(self@ =~= before);
            None
        } else {
            Some(Graves { cards, decks, notes })
        }
    }

    /// How many objects the next chunk holds.
    pub fn chunk_count(&self) -> (n: usize)
        ensures
            n == self@.chunk().total(),
            n > 0 <==> self@.total() > 0,
    {
        let cards = self.cards.len().min(CHUNK_SIZE);
        let notes = self.notes.len().min(CHUNK_SIZE - cards);
        let decks = self.decks.len().min(CHUNK_SIZE - cards - notes);
        cards + notes + decks
    }

    /// How many objects there are.
    pub fn count(&self) -> (n: usize)
        requires
            self@.total() <= usize::MAX,
        ensures
            n == self@.total(),
    {
        self.cards.len() + self.notes.len() + self.decks.len()
    }
}

/// What is popped first and what is popped then is all of it, popped.
pub proof fn lemma_popped_in_turn<T>(s: Seq<T>, n: int)
    requires
        0 <= n <= s.len(),
    ensures
        popped(s, n) + unpopped(s, n).reverse() == s.reverse(),
{
    assert(popped(s, n) + unpopped(s, n).reverse() =~= s.reverse());
}

/// Taking chunks until there are none hands over every object exactly once, in the order in
/// which it is popped. No chunk is empty or over the limit, and only the last is not full.
pub proof fn law_graves_chunks_hand_over_everything(graves: GravesView)
    ensures
        graves.chunks().map_values(|c: GravesView| c.cards).flatten() == graves.cards.reverse(),
        graves.chunks().map_values(|c: GravesView| c.notes).flatten() == graves.notes.reverse(),
        graves.chunks().map_values(|c: GravesView| c.decks).flatten() == graves.decks.reverse(),
        forall|i: int|
            0 <= i < graves.chunks().len() ==> 0 < (#[trigger] graves.chunks()[i]).total()
                <= CHUNK_SIZE,
        forall|i: int|
            0 <= i < graves.chunks().len() - 1 ==> (#[trigger] graves.chunks()[i]).total()
                == CHUNK_SIZE,
    decreases graves.total(),
{
    let chunks = graves.chunks();
    let cards = chunks.map_values(|c: GravesView| c.cards);
    let notes = chunks.map_values(|c: GravesView| c.notes);
    let decks = chunks.map_values(|c: GravesView| c.decks);
    if graves.total() == 0 {
        assert(cards.flatten() =~= graves.cards.reverse());
        assert(notes.flatten() =~= graves.notes.reverse());
        assert(decks.flatten() =~= graves.decks.reverse());
    } else {
        let left = graves.left();
        law_graves_chunks_hand_over_everything(left);
        lemma_popped_in_turn(graves.cards, graves.cards_taken());
        lemma_popped_in_turn(graves.notes, graves.notes_taken());
        lemma_popped_in_turn(graves.decks, graves.decks_taken());
        assert(cards.drop_first() =~= left.chunks().map_values(|c: GravesView| c.cards));
        assert(notes.drop_first() =~= left.chunks().map_values(|c: GravesView| c.notes));
        assert(decks.drop_first() =~= left.chunks().map_values(|c: GravesView| c.decks));
        assert(left.total() == 0 ==> left.chunks().len() == 0);
        assert forall|i: int| 0 <= i < chunks.len() implies 0 < (#[trigger] chunks[i]).total()
            <= CHUNK_SIZE by {
            if i > 0 {
                assert(chunks[i] == left.chunks()[i - 1]);
            }
        }
        assert forall|i: int| 0 <= i < chunks.len() - 1 implies (#[trigger] chunks[i]).total()
            == CHUNK_SIZE by {
            if i > 0 {
                assert(chunks[i] == left.chunks()[i - 1]);
            }
        }
    }
}

/// One step of removing objects that the server has removed.
#[derive(Debug, Clone, Copy, PartialEq, Eq, Structural)]
pub enum GraveOp {
    RemoveNote(NoteID),
    AddNoteGrave(NoteID, Usn),
    RemoveCard(CardID),
    AddCardGrave(CardID, Usn),
    RemoveDeck(DeckID),
    AddDeckGrave(DeckID, Usn),
}

/// The steps that remove what the server has removed: notes, cards, decks, each object
/// first removed and then recorded as removed in this sync.
pub open spec fn burials(graves: GravesView, latest_usn: Usn) -> Seq<GraveOp> {
    graves.notes.flat_map(note_burial(latest_usn)) + graves.cards.flat_map(
        card_burial(latest_usn),
    ) + graves.decks.flat_map(deck_burial(latest_usn))
}

pub open spec fn note_burial(usn: Usn) -> spec_fn(NoteID) -> Seq<GraveOp> {
    |id: NoteID| seq![GraveOp::RemoveNote(id), GraveOp::AddNoteGrave(id, usn)]
}

pub open spec fn card_burial(usn: Usn) -> spec_fn(CardID) -> Seq<GraveOp> {
    |id: CardID| seq![GraveOp::RemoveCard(id), GraveOp::AddCardGrave(id, usn)]
}

pub open spec fn deck_burial(usn: Usn) -> spec_fn(DeckID) -> Seq<GraveOp> {
    |id: DeckID| seq![GraveOp::RemoveDeck(id), GraveOp::AddDeckGrave(id, usn)]
}

/// Which objects a collection holds, and which removals it has on record.
#[verifier::ext_equal]
pub struct Holdings {
    pub notes: Set<NoteID>,
    pub cards: Set<CardID>,
    pub decks: Set<DeckID>,
    pub note_graves: Set<(NoteID, Usn)>,
    pub card_graves: Set<(CardID, Usn)>,
    pub deck_graves: Set<(DeckID, Usn)>,
}

impl Holdings {
    /// The holdings after one step.
    pub open spec fn after(self, op: GraveOp) -> Holdings {
        match op {
            GraveOp::RemoveNote(id) => Holdings { notes: self.notes.remove(id), ..self },
            GraveOp::AddNoteGrave(id, usn) => Holdings {
                note_graves: self.note_graves.insert((id, usn)),
                ..self
            },
            GraveOp::RemoveCard(id) => Holdings { cards: self.cards.remove(id), ..self },
            GraveOp::AddCardGrave(id, usn) => Holdings {
                card_graves: self.card_graves.insert((id, usn)),
                ..self
            },
            GraveOp::RemoveDeck(id) => Holdings { decks: self.decks.remove(id), ..self },
            GraveOp::AddDeckGrave(id, usn) => Holdings {
                deck_graves: self.deck_graves.insert((id, usn)),
                ..self
            },
        }
    }

    /// The holdings after all the steps.
    pub open spec fn after_all(self, ops: Seq<GraveOp>) -> Holdings
        decreases ops.len(),
    {
        if ops.len() == 0 {
            self
        } else {
            self.after_all(ops.drop_last()).after(ops.last())
        }
    }
}

proof fn lemma_after_two(h: Holdings, ops: Seq<GraveOp>, a: GraveOp, b: GraveOp)
    ensures
        h.after_all(ops + seq![a, b]) == h.after_all(ops).after(a).after(b),
{
    let all = ops + seq![a, b];
    assert(all.drop_last() =~= ops.push(a));
    assert(ops.push(a).drop_last() =~= ops);
    assert(h.after_all(ops.push(a)) == h.after_all(ops).after(a));
}

proof fn lemma_after_concat(h: Holdings, a: Seq<GraveOp>, b: Seq<GraveOp>)
    ensures
        h.after_all(a + b) == h.after_all(a).after_all(b),
    decreases b.len(),
{
    if b.len() == 0 {
        assert(a + b =~= a);
    } else {
        assert((a + b).drop_last() =~= a + b.drop_last());
        lemma_after_concat(h, a, b.drop_last());
    }
}

proof fn lemma_notes_buried(h: Holdings, ids: Seq<NoteID>, usn: Usn)
    ensures
        h.after_all(ids.flat_map(note_burial(usn))) == (Holdings {
            notes: h.notes.difference(ids.to_set()),
            note_graves: h.note_graves.union(ids.map_values(|id: NoteID| (id, usn)).to_set()),
            ..h
        }),
    decreases ids.len(),
{
    let buried = Holdings {
        notes: h.notes.difference(ids.to_set()),
        note_graves: h.note_graves.union(ids.map_values(|id: NoteID| (id, usn)).to_set()),
        ..h
    };
    if ids.len() == 0 {
        assert(ids.flat_map(note_burial(usn)) =~= seq![]);
        assert(buried =~= h);
    } else {
        let front = ids.drop_last();
        let id = ids.last();
        lemma_notes_buried(h, front, usn);
        front.lemma_flat_map_push(note_burial(usn), id);
        assert(front.push(id) =~= ids);
        lemma_after_two(
            h,
            front.flat_map(note_burial(usn)),
            GraveOp::RemoveNote(id),
            GraveOp::AddNoteGrave(id, usn),
        );
        lemma_last_joins_set(ids);
        lemma_last_joins_set(ids.map_values(|id: NoteID| (id, usn)));
        assert(ids.map_values(|id: NoteID| (id, usn)).drop_last() =~= front.map_values(
            |id: NoteID| (id, usn),
        ));
        assert(h.after_all(ids.flat_map(note_burial(usn))) =~= buried);
    }
}

proof fn lemma_cards_buried(h: Holdings, ids: Seq<CardID>, usn: Usn)
    ensures
        h.after_all(ids.flat_map(card_burial(usn))) == (Holdings {
            cards: h.cards.difference(ids.to_set()),
            card_graves: h.card_graves.union(ids.map_values(|id: CardID| (id, usn)).to_set()),
            ..h
        }),
    decreases ids.len(),
{
    let buried = Holdings {
        cards: h.cards.difference(ids.to_set()),
        card_graves: h.card_graves.union(ids.map_values(|id: CardID| (id, usn)).to_set()),
        ..h
    };
    if ids.len() == 0 {
        assert(ids.flat_map(card_burial(usn)) =~= seq![]);
        assert(buried =~= h);
    } else {
        let front = ids.drop_last();
        let id = ids.last();
        lemma_cards_buried(h, front, usn);
        front.lemma_flat_map_push(card_burial(usn), id);
        assert(front.push(id) =~= ids);
        lemma_after_two(
            h,
            front.flat_map(card_burial(usn)),
            GraveOp::RemoveCard(id),
            GraveOp::AddCardGrave(id, usn),
        );
        lemma_last_joins_set(ids);
        lemma_last_joins_set(ids.map_values(|id: CardID| (id, usn)));
        assert(ids.map_values(|id: CardID| (id, usn)).drop_last() =~= front.map_values(
            |id: CardID| (id, usn),
        ));
        assert(h.after_all(ids.flat_map(card_burial(usn))) =~= buried);
    }
}

proof fn lemma_decks_buried(h: Holdings, ids: Seq<DeckID>, usn: Usn)
    ensures
        h.after_all(ids.flat_map(deck_burial(usn))) == (Holdings {
            decks: h.decks.difference(ids.to_set()),
            deck_graves: h.deck_graves.union(ids.map_values(|id: DeckID| (id, usn)).to_set()),
            ..h
        }),
    decreases ids.len(),
{
    let buried = Holdings {
        decks: h.decks.difference(ids.to_set()),
        deck_graves: h.deck_graves.union(ids.map_values(|id: DeckID| (id, usn)).to_set()),
        ..h
    };
    if ids.len() == 0 {
        assert(ids.flat_map(deck_burial(usn)) =~= seq![]);
        assert(buried =~= h);
    } else {
        let front = ids.drop_last();
        let id = ids.last();
        lemma_decks_buried(h, front, usn);
        front.lemma_flat_map_push(deck_burial(usn), id);
        assert(front.push(id) =~= ids);
        lemma_after_two(
            h,
            front.flat_map(deck_burial(usn)),
            GraveOp::RemoveDeck(id),
            GraveOp::AddDeckGrave(id, usn),
        );
        lemma_last_joins_set(ids);
        lemma_last_joins_set(ids.map_values(|id: DeckID| (id, usn)));
        assert(ids.map_values(|id: DeckID| (id, usn)).drop_last() =~= front.map_values(
            |id: DeckID| (id, usn),
        ));
        assert(h.after_all(ids.flat_map(deck_burial(usn))) =~= buried);
    }
}

proof fn lemma_last_joins_set<T>(s: Seq<T>)
    requires
        s.len() > 0,
    ensures
        s.to_set() == s.drop_last().to_set().insert(s.last()),
{
    assert forall|x: T| s.to_set().contains(x) implies #[trigger] s.drop_last().to_set().insert(
        s.last(),
    ).contains(x) by {
        let i = choose|i: int| 0 <= i < s.len() && s[i] == x;
        if i < s.len() - 1 {
            assert(s.drop_last()[i] == x);
        }
    }
    assert forall|x: T| #[trigger]
        s.drop_last().to_set().insert(s.last()).contains(x) implies s.to_set().contains(x) by {
        if s.drop_last().contains(x) {
            let i = choose|i: int| 0 <= i < s.drop_last().len() && s.drop_last()[i] == x;
            assert(s[i] == x);
        } else {
            assert(s[s.len() - 1] == x);
        }
    }
    assert(s.to_set() =~= s.drop_last().to_set().insert(s.last()));
}

/// Applying the server's graves removes exactly the objects named in them, and puts on
/// record exactly those removals, under the sync's number.
pub proof fn law_graves_remove_what_they_name(held: Holdings, graves: GravesView, usn: Usn)
    ensures
        held.after_all(burials(graves, usn)) == (Holdings {
            notes: held.notes.difference(graves.notes.to_set()),
            cards: held.cards.difference(graves.cards.to_set()),
            decks: held.decks.difference(graves.decks.to_set()),
            note_graves: held.note_graves.union(
                graves.notes.map_values(|id: NoteID| (id, usn)).to_set(),
            ),
            card_graves: held.card_graves.union(
                graves.cards.map_values(|id: CardID| (id, usn)).to_set(),
            ),
            deck_graves: held.deck_graves.union(
                graves.decks.map_values(|id: DeckID| (id, usn)).to_set(),
            ),
        }),
{
    let notes = graves.notes.flat_map(note_burial(usn));
    let cards = graves.cards.flat_map(card_burial(usn));
    let decks = graves.decks.flat_map(deck_burial(usn));
    lemma_after_concat(held, notes + cards, decks);
    lemma_after_concat(held, notes, cards);
    lemma_notes_buried(held, graves.notes, usn);
    lemma_cards_buried(held.after_all(notes), graves.cards, usn);
    lemma_decks_buried(held.after_all(notes + cards), graves.decks, usn);
}

impl Collection {
    /// The steps that remove what the server has removed, in the order in which to take them.
    pub fn apply_graves(&self, graves: &Graves, latest_usn: Usn) -> (ops: Vec<GraveOp>)
        ensures
            ops@ == burials(graves@, latest_usn),
    {
        let mut ops: Vec<GraveOp> = Vec::new();
        let ghost notes = graves@.notes.flat_map(note_burial(latest_usn));
        let ghost cards = graves@.cards.flat_map(card_burial(latest_usn));
        assert(graves@.notes.take(0).flat_map(note_burial(latest_usn)) =~= seq![]);
        assert(graves@.cards.take(0).flat_map(card_burial(latest_usn)) =~= seq![]);
        assert(graves@.decks.take(0).flat_map(deck_burial(latest_usn)) =~= seq![]);
        for n in 0..graves.notes.len()
            invariant
                ops@ =~= graves@.notes.take(n as int).flat_map(note_burial(latest_usn)),
        {
            proof {
                graves@.notes.lemma_flat_map_take_append(note_burial(latest_usn), n as int);
            }
            ops.push(GraveOp::RemoveNote(graves.notes[n]));
            ops.push(GraveOp::AddNoteGrave(graves.notes[n], latest_usn));
        }
        assert(graves@.notes.take(graves@.notes.len() as int) =~= graves@.notes);
        for n in 0..graves.cards.len()
            invariant
                ops@ =~= notes + graves@.cards.take(n as int).flat_map(card_burial(latest_usn)),
        {
            proof {
                graves@.cards.lemma_flat_map_take_append(card_burial(latest_usn), n as int);
            }
            ops.push(GraveOp::RemoveCard(graves.cards[n]));
            ops.push(GraveOp::AddCardGrave(graves.cards[n], latest_usn));
        }
        assert(graves@.cards.take(graves@.cards.len() as int) =~= graves@.cards);
        for n in 0..graves.decks.len()
            invariant
                ops@ =~= notes + cards + graves@.decks.take(n as int).flat_map(
                    deck_burial(latest_usn),
                ),
        {
            proof {
                graves@.decks.lemma_flat_map_take_append(deck_burial(latest_usn), n as int);
            }
            ops.push(GraveOp::RemoveDeck(graves.decks[n]));
            ops.push(GraveOp::AddDeckGrave(graves.decks[n], latest_usn));
        }
        assert(graves@.decks.take(graves@.decks.len() as int) =~= graves@.decks);
        ops
    }
}

} // verus!
