//! The comparison of what the two sides hold at the end of a sync.

use crate::collection::Collection;
use crate::error::{AnkiError, SyncErrorKind};
use vstd::prelude::*;

verus! {

/// What the server finds.
#[derive(Debug, Clone, Copy, PartialEq, Eq, Structural)]
pub enum SanityCheckStatus {
    Good,
    Bad,
}

/// The numbers of cards that are due.
#[derive(Debug, Clone, Copy, PartialEq, Eq, Structural)]
pub struct SanityCheckDueCounts {
    pub new: u32,
    pub learn: u32,
    pub review: u32,
}

impl Default for SanityCheckDueCounts {
    fn default() -> (counts: Self)
        ensures
            counts == (SanityCheckDueCounts { new: 0, learn: 0, review: 0 }),
    {
        SanityCheckDueCounts { new: 0, learn: 0, review: 0 }
    }
}

/// What one side holds, counted.
#[derive(Debug, Clone, Copy, PartialEq, Eq, Structural)]
pub struct SanityCheckCounts {
    pub counts: SanityCheckDueCounts,
    pub cards: u32,
    pub notes: u32,
    pub revlog: u32,
    pub graves: u32,
    pub notetypes: u32,
    pub decks: u32,
    pub deck_config: u32,
}

/// The server's answer to the client's counts.
#[derive(Debug, Clone, Copy, PartialEq, Eq, Structural)]
pub struct SanityCheckOut {
    pub status: SanityCheckStatus,
    pub client: Option<SanityCheckCounts>,
    pub server: Option<SanityCheckCounts>,
}

/// The due cards of a deck and of the decks below it.
#[derive(Debug, Clone, Copy, PartialEq, Eq, Structural)]
pub struct DeckTreeNode {
    pub new_count: u32,
    pub review_count: u32,
    pub learn_count: u32,
}

impl Collection {
    /// Fills in the due cards of the current deck, if there is one.
    pub fn add_due_counts(&self, counts: &mut SanityCheckDueCounts, tree: Option<DeckTreeNode>)
        ensures
            *final(counts) == match tree {
                Some(tree) => SanityCheckDueCounts {
                    new: tree.new_count,
                    learn: tree.learn_count,
                    review: tree.review_count,
                },
                None => *old(counts),
            },
    {
        if let Some(tree) = tree {
            counts.new = tree.new_count;
            counts.review = tree.review_count;
            counts.learn = tree.learn_count;
        }
    }
}

/// The decimal digit of a number below ten.
pub open spec fn digit(n: nat) -> char {
    seq!['0', '1', '2', '3', '4', '5', '6', '7', '8', '9'][n as int]
}

/// The number in decimal.
pub open spec fn decimal(n: nat) -> Seq<char>
    decreases n,
{
    if n < 10 {
        seq![digit(n)]
    } else {
        decimal(n / 10).push(digit(n % 10))
    }
}

/// The text with a label and a number behind it.
pub open spec fn with_number(text: Seq<char>, label: Seq<char>, n: u32) -> Seq<char> {
    text + label + decimal(n as nat)
}

/// The text with the counts behind it.
pub open spec fn with_counts(text: Seq<char>, c: SanityCheckCounts) -> Seq<char> {
    let due = with_number(
        with_number(
            with_number(
                text,
                "SanityCheckCounts { counts: SanityCheckDueCounts { new: "@,
                c.counts.new,
            ),
            ", learn: "@,
            c.counts.learn,
        ),
        ", review: "@,
        c.counts.review,
    );
    let objects = with_number(
        with_number(with_number(due, " }, cards: "@, c.cards), ", notes: "@, c.notes),
        ", revlog: "@,
        c.revlog,
    );
    let all = with_number(
        with_number(
            with_number(
                with_number(objects, ", graves: "@, c.graves),
                ", notetypes: "@,
                c.notetypes,
            ),
            ", decks: "@,
            c.decks,
        ),
        ", deck_config: "@,
        c.deck_config,
    );
    all + " }"@
}

/// The text with the counts behind it, or with the word that there are none.
pub open spec fn with_optional_counts(
    text: Seq<char>,
    counts: Option<SanityCheckCounts>,
) -> Seq<char> {
    match counts {
        Some(c) => with_counts(text + "Some("@, c) + ")"@,
        None => text + "None"@,
    }
}

/// The report on counts that do not match.
pub open spec fn mismatch_text(out: SanityCheckOut) -> Seq<char> {
    with_optional_counts(with_optional_counts("local "@, out.client) + "\nremote "@, out.server)
}

fn digit_of(n: u32) -> (c: char)
    requires
        n < 10,
    ensures
        c == digit(n as nat),
{
    match n {
        0 => '0',
        1 => '1',
        2 => '2',
        3 => '3',
        4 => '4',
        5 => '5',
        6 => '6',
        7 => '7',
        8 => '8',
        _ => '9',
    }
}

fn push_decimal(text: &mut String, n: u32)
    ensures
        final(text)@ == old(text)@ + decimal(n as nat),
    decreases n,
{
    let ghost before = text@;
    if n >= 10 {
        push_decimal(text, n / 10);
    }
    text.push(digit_of(n % 10));
    assert(text@ =~= before + decimal(n as nat));
}

fn push_number(text: &mut String, label: &str, n: u32)
    ensures
        final(text)@ == with_number(old(text)@, label@, n),
{
    text.append(label);
    push_decimal(text, n);
}

fn push_counts(text: &mut String, c: SanityCheckCounts)
    ensures
        final(text)@ == with_counts(old(text)@, c),
{
    push_number(text, "SanityCheckCounts { counts: SanityCheckDueCounts { new: ", c.counts.new);
    push_number(text, ", learn: ", c.counts.learn);
    push_number(text, ", review: ", c.counts.review);
    push_number(text, " }, cards: ", c.cards);
    push_number(text, ", notes: ", c.notes);
    push_number(text, ", revlog: ", c.revlog);
    push_number(text, ", graves: ", c.graves);
    push_number(text, ", notetypes: ", c.notetypes);
    push_number(text, ", decks: ", c.decks);
    push_number(text, ", deck_config: ", c.deck_config);
    text.append(" }");
}

fn push_optional_counts(text: &mut String, counts: Option<SanityCheckCounts>)
    ensures
        final(text)@ == with_optional_counts(old(text)@, counts),
{
    match counts {
        Some(c) => {
            text.append("Some(");
            push_counts(text, c);
            text.append(")");
        },
        None => {
            text.append("None");
        },
    }
}

/// What comes of the server's answer.
pub open spec fn passes(out: SanityCheckOut, res: Result<(), AnkiError>) -> bool {
    if out.status == SanityCheckStatus::Good {
        res is Ok
    } else {
        res matches Err(e) && e.is_sync_error(
            SyncErrorKind::DatabaseCheckRequired,
            mismatch_text(out),
        )
    }
}

/// Passes if the server found the counts to match, and else reports both sides' counts.
pub fn check_counts(out: SanityCheckOut) -> (res: Result<(), AnkiError>)
    ensures
        passes(out, res),
{
    if out.status != SanityCheckStatus::Good {
        let mut info = String::new();
        info.append("local ");
        assert(info@ =~= "local "@);
        push_optional_counts(&mut info, out.client);
        info.append("\nremote ");
        push_optional_counts(&mut info, out.server);
        Err(AnkiError::SyncError { info, kind: SyncErrorKind::DatabaseCheckRequired })
    } else {
        Ok(())
    }
}

} // verus!
