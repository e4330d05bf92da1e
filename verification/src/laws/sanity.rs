//! On the comparison of the two sides.

use crate::collection::Collection;
use crate::error::{AnkiError, SyncErrorKind};
use crate::sanity;
use crate::sanity::{
    check_counts, DeckTreeNode, SanityCheckCounts, SanityCheckDueCounts, SanityCheckOut,
    SanityCheckStatus,
};
use vstd::prelude::*;

verus! {

/// The comparison passes exactly if the server finds that the counts match. If not, the database
/// is to be checked.
pub proof fn law_comparison_passes_only_if_the_server_says_so(
    out: SanityCheckOut,
    res: Result<(), AnkiError>,
)
    requires
        call_ensures(check_counts, (out,), res),
    ensures
        res is Ok <==> out.status == SanityCheckStatus::Good,
        res matches Err(e) ==> (e matches AnkiError::SyncError { kind, .. } && kind
            == SyncErrorKind::DatabaseCheckRequired),
{
}

/// Where there is a current deck, the due counts are its own, and else they stay what they were.
pub proof fn law_due_counts_are_those_of_the_current_deck(
    col: Collection,
    before: SanityCheckDueCounts,
    after: SanityCheckDueCounts,
    tree: Option<DeckTreeNode>,
    res: (),
)
    requires
        exists|counts: &mut SanityCheckDueCounts|
            *counts == before && *final(counts) == after && #[trigger] call_ensures(
                Collection::add_due_counts,
                (&col, counts, tree),
                res,
            ),
    ensures
        tree is None ==> after == before,
        tree matches Some(node) ==> after.new == node.new_count && after.learn == node.learn_count
            && after.review == node.review_count,
{
}

/// The number that a text of digits stands for.
pub open spec fn reads_as(digits: Seq<char>) -> int
    decreases digits.len(),
{
    if digits.len() == 0 {
        0
    } else {
        10 * reads_as(digits.drop_last()) + (digits.last() as int - '0' as int)
    }
}

/// A number in decimal reads as that number. It is made of digits, and begins with a zero only if
/// it is zero.
pub proof fn law_decimal_reads_as_the_number(n: nat)
    ensures
        reads_as(sanity::decimal(n)) == n,
        sanity::decimal(n).len() > 0,
        forall|i: int|
            0 <= i < sanity::decimal(n).len() ==> '0' <= #[trigger] sanity::decimal(n)[i] && sanity::decimal(
                n,
            )[i] <= '9',
        n > 0 ==> sanity::decimal(n)[0] != '0',
        n == 0 ==> sanity::decimal(n).len() == 1,
    decreases n,
{
    let digits = sanity::decimal(n);
    if n < 10 {
        lemma_digit(n);
        assert(digits.drop_last() =~= seq![]);
        assert(reads_as(digits.drop_last()) == 0);
    } else {
        let front = sanity::decimal(n / 10);
        lemma_digit(n % 10);
        law_decimal_reads_as_the_number(n / 10);
        assert(digits.drop_last() =~= front);
        assert forall|i: int| 0 <= i < digits.len() implies '0' <= #[trigger] digits[i] && digits[i]
            <= '9' by {
            if i < front.len() {
                assert(front[i] == digits[i]);
            }
        }
    }
}

proof fn lemma_digit(n: nat)
    requires
        n < 10,
    ensures
        sanity::digit(n) as int == '0' as int + n,
{
}

/// The counts, written out.
pub open spec fn written_out(counts: Option<SanityCheckCounts>) -> Seq<char> {
    match counts {
        None => "None"@,
        Some(c) => "Some("@ + "SanityCheckCounts { counts: SanityCheckDueCounts { new: "@
            + sanity::decimal(c.counts.new as nat) + ", learn: "@ + sanity::decimal(
            c.counts.learn as nat,
        ) + ", review: "@ + sanity::decimal(c.counts.review as nat) + " }, cards: "@
            + sanity::decimal(c.cards as nat) + ", notes: "@ + sanity::decimal(c.notes as nat)
            + ", revlog: "@ + sanity::decimal(c.revlog as nat) + ", graves: "@ + sanity::decimal(
            c.graves as nat,
        ) + ", notetypes: "@ + sanity::decimal(c.notetypes as nat) + ", decks: "@ + sanity::decimal(
            c.decks as nat,
        ) + ", deck_config: "@ + sanity::decimal(c.deck_config as nat) + " }"@ + ")"@,
    }
}

/// The report on counts that do not match has the client's counts on one line, and the server's on
/// the next.
pub proof fn law_mismatch_report_has_both_counts(out: SanityCheckOut, res: Result<(), AnkiError>)
    requires
        call_ensures(check_counts, (out,), res),
        out.status != SanityCheckStatus::Good,
    ensures
        res matches Err(AnkiError::SyncError { info, .. }) && info@ == "local "@ + written_out(
            out.client,
        ) + "\nremote "@ + written_out(out.server),
{
    lemma_written_out("local "@, out.client);
    lemma_written_out("local "@ + written_out(out.client) + "\nremote "@, out.server);
}

proof fn lemma_written_out(text: Seq<char>, counts: Option<SanityCheckCounts>)
    ensures
        sanity::with_optional_counts(text, counts) == text + written_out(counts),
{
    assert(sanity::with_optional_counts(text, counts) =~= text + written_out(counts));
}

} // verus!
