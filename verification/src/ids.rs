//! Numbers with a meaning: object ids, update sequence numbers and timestamps.

use vstd::prelude::*;

verus! {

/// Identifies a card.
#[derive(Debug, Clone, Copy, PartialEq, Eq, Structural)]
pub struct CardID(pub i64);

/// Identifies a note.
#[derive(Debug, Clone, Copy, PartialEq, Eq, Structural)]
pub struct NoteID(pub i64);

/// Identifies a deck.
#[derive(Debug, Clone, Copy, PartialEq, Eq, Structural)]
pub struct DeckID(pub i64);

/// Identifies a deck's option group.
#[derive(Debug, Clone, Copy, PartialEq, Eq, Structural)]
pub struct DeckConfID(pub i64);

/// Identifies a note type.
#[derive(Debug, Clone, Copy, PartialEq, Eq, Structural)]
pub struct NoteTypeID(pub i64);

/// Identifies an entry of the review log.
#[derive(Debug, Clone, Copy, PartialEq, Eq, Structural)]
pub struct RevlogID(pub i64);

/// Seconds since the epoch.
#[derive(Debug, Clone, Copy, PartialEq, Eq, Structural)]
pub struct TimestampSecs(pub i64);

/// Milliseconds since the epoch.
#[derive(Debug, Clone, Copy, PartialEq, Eq, Structural)]
pub struct TimestampMillis(pub i64);

/// An update sequence number: the sync in which an object was last changed. An object that
/// has not been synced since its last change carries -1.
#[derive(Debug, Clone, Copy, PartialEq, Eq, Structural)]
pub struct Usn(pub i32);

impl Usn {
    /// Used when gathering pending objects during sync.
    pub fn pending_object_clause(self) -> (clause: &'static str)
        ensures
            clause@ == if self.0 == -1 { "usn = ?"@ } else { "usn >= ?"@ },
    {
        if self.0 == -1 {
            "usn = ?"
        } else {
            "usn >= ?"
        }
    }
}

/// An id that the database knows an object by.
pub trait ObjectID: Sized {
    spec fn number(self) -> i64;

    /// The id as a plain number.
    fn to_number(&self) -> (n: i64)
        ensures
            n == self.number(),
    ;
}

impl ObjectID for CardID {
    open spec fn number(self) -> i64 {
        self.0
    }

    fn to_number(&self) -> (n: i64) {
        self.0
    }
}

impl ObjectID for NoteID {
    open spec fn number(self) -> i64 {
        self.0
    }

    fn to_number(&self) -> (n: i64) {
        self.0
    }
}

impl ObjectID for DeckID {
    open spec fn number(self) -> i64 {
        self.0
    }

    fn to_number(&self) -> (n: i64) {
        self.0
    }
}

impl ObjectID for DeckConfID {
    open spec fn number(self) -> i64 {
        self.0
    }

    fn to_number(&self) -> (n: i64) {
        self.0
    }
}

impl ObjectID for NoteTypeID {
    open spec fn number(self) -> i64 {
        self.0
    }

    fn to_number(&self) -> (n: i64) {
        self.0
    }
}

impl ObjectID for RevlogID {
    open spec fn number(self) -> i64 {
        self.0
    }

    fn to_number(&self) -> (n: i64) {
        self.0
    }
}

/// The ids as plain numbers.
pub open spec fn numbers<T: ObjectID>(ids: Seq<T>) -> Seq<i64> {
    ids.map_values(|id: T| id.number())
}

/// The ids as plain numbers.
pub fn raw_ids<T: ObjectID>(ids: &Vec<T>) -> (res: Vec<i64>)
    ensures
        res@ == numbers(ids@),
{
    let mut res: Vec<i64> = Vec::new();
    for i in 0..ids.len()
        invariant
            res@ =~= numbers(ids@.take(i as int)),
    {
        res.push(ids[i].to_number());
    }
    assert(ids@.take(ids@.len() as int) =~= ids@);
    res
}

/// The number that an object goes out with: the new one where there is one, else its own.
pub open spec fn stamp(own: Usn, new_usn: Option<Usn>) -> Usn {
    match new_usn {
        Some(usn) => usn,
        None => own,
    }
}

} // verus!
