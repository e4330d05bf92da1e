use anki_sync::collection::Collection;
use anki_sync::error::{AnkiError, SyncErrorKind};
use anki_sync::sanity::{
    check_counts, DeckTreeNode, SanityCheckCounts, SanityCheckDueCounts, SanityCheckOut,
    SanityCheckStatus,
};

fn counts(n: u32) -> SanityCheckCounts {
    SanityCheckCounts {
        counts: SanityCheckDueCounts { new: n, learn: 0, review: 10 },
        cards: 9,
        notes: 99,
        revlog: 100,
        graves: u32::MAX,
        notetypes: 1234567890,
        decks: 1,
        deck_config: 11,
    }
}

#[test]
fn matching_counts_pass() {
    let out = SanityCheckOut { status: SanityCheckStatus::Good, client: None, server: None };
    assert!(check_counts(out).is_ok());
}

#[test]
fn mismatch_reports_the_counts_of_both_sides() {
    let sides = vec![None, Some(counts(0)), Some(counts(4294967295))];
    for client in &sides {
        for server in &sides {
            let out = SanityCheckOut {
                status: SanityCheckStatus::Bad,
                client: *client,
                server: *server,
            };
            match check_counts(out) {
                Err(AnkiError::SyncError { info, kind }) => {
                    assert_eq!(kind, SyncErrorKind::DatabaseCheckRequired);
                    assert_eq!(info, format!("local {:?}\nremote {:?}", client, server));
                }
                other => panic!("{:?}", other),
            }
        }
    }
}

#[test]
fn mismatch_text_is_spelled_out() {
    let out = SanityCheckOut {
        status: SanityCheckStatus::Bad,
        client: Some(counts(7)),
        server: None,
    };
    match check_counts(out) {
        Err(AnkiError::SyncError { info, .. }) => assert_eq!(
            info,
            "local Some(SanityCheckCounts { counts: SanityCheckDueCounts { new: 7, learn: 0, \
             review: 10 }, cards: 9, notes: 99, revlog: 100, graves: 4294967295, \
             notetypes: 1234567890, decks: 1, deck_config: 11 })\nremote None"
        ),
        other => panic!("{:?}", other),
    }
}

#[test]
fn due_counts_are_those_of_the_current_deck() {
    let col = Collection { server: false };
    let mut due = SanityCheckDueCounts::default();
    col.add_due_counts(&mut due, None);
    assert_eq!(due, SanityCheckDueCounts { new: 0, learn: 0, review: 0 });
    let tree = DeckTreeNode { new_count: 1, review_count: 2, learn_count: 3 };
    col.add_due_counts(&mut due, Some(tree));
    assert_eq!(due, SanityCheckDueCounts { new: 1, learn: 3, review: 2 });
    col.add_due_counts(&mut due, None);
    assert_eq!(due, SanityCheckDueCounts { new: 1, learn: 3, review: 2 });
}
