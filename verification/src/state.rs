//! What the two sides say of themselves, and which kind of sync it takes.

use crate::collection::Collection;
use crate::error::{AnkiError, SyncErrorKind};
use crate::ids::{TimestampMillis, TimestampSecs, Usn};
use vstd::prelude::*;
use vstd::std_specs::convert::FromSpecImpl;

verus! {

/// The seconds that the clocks of the two sides may be apart.
pub const MAX_CLOCK_SKEW: i64 = 300;

/// The number of objects that wait to be synced.
pub const PENDING_USN: i32 = -1;

/// What one side says of itself before a sync.
#[derive(Debug)]
pub struct SyncMeta {
    /// When the collection was last changed.
    pub modified: TimestampMillis,
    /// When its schema was last changed.
    pub schema: TimestampMillis,
    pub usn: Usn,
    pub current_time: TimestampSecs,
    /// What the server wants the user to know.
    pub server_message: String,
    /// The server lets the sync go on.
    pub should_continue: bool,
    pub host_number: u32,
    pub empty: bool,
}

/// The kind of sync that is needed.
#[derive(Debug, Clone, Copy, PartialEq, Eq, Structural)]
pub enum SyncActionRequired {
    NoChanges,
    FullSyncRequired { upload_ok: bool, download_ok: bool },
    NormalSyncRequired,
}

/// Where the two sides stand.
#[derive(Debug)]
pub struct SyncState {
    pub required: SyncActionRequired,
    pub local_is_newer: bool,
    pub usn_at_last_sync: Usn,
    // latest usn, used for adding new items
    pub latest_usn: Usn,
    // usn to use when locating pending objects
    pub pending_usn: Usn,
    // usn to replace pending items with - the same as latest_usn in the client case
    pub new_usn: Option<Usn>,
    pub server_message: String,
    pub host_number: u32,
}

/// The outcome of a sync.
#[derive(Debug)]
pub struct SyncOutput {
    pub required: SyncActionRequired,
    pub server_message: String,
    pub host_number: u32,
}

/// What a client identifies itself with.
#[derive(Debug)]
pub struct SyncAuth {
    pub hkey: String,
    pub host_number: u32,
}

impl SyncOutput {
    /// The outcome that goes with the state.
    pub open spec fn of(s: SyncState) -> SyncOutput {
        SyncOutput {
            required: s.required,
            server_message: s.server_message,
            host_number: s.host_number,
        }
    }
}

impl From<SyncState> for SyncOutput {
    fn from(s: SyncState) -> (output: Self) {
        SyncOutput {
            required: s.required,
            server_message: s.server_message,
            host_number: s.host_number,
        }
    }
}

impl FromSpecImpl<SyncState> for SyncOutput {
    open spec fn obeys_from_spec() -> bool {
        true
    }

    open spec fn from_spec(s: SyncState) -> SyncOutput {
        SyncOutput::of(s)
    }
}

impl Collection {
    /// What the collection says of itself, given what the storage and the clock say.
    /// `have_at_least_one_card` is the storage's answer under that name, passed on as it is.
    pub fn sync_meta(
        &self,
        modified: TimestampMillis,
        schema: TimestampMillis,
        usn: Usn,
        now: TimestampSecs,
        have_at_least_one_card: bool,
    ) -> (meta: SyncMeta)
        ensures
            meta.modified == modified,
            meta.schema == schema,
            meta.usn == usn,
            meta.current_time == now,
            meta.server_message@ == Seq::<char>::empty(),
            meta.should_continue,
            meta.host_number == 0,
            meta.empty == have_at_least_one_card,
    {
        SyncMeta {
            modified,
            schema,
            usn,
            current_time: now,
            server_message: String::new(),
            should_continue: true,
            host_number: 0,
            empty: have_at_least_one_card,
        }
    }
}

impl SyncMeta {
    /// The seconds by which this side's clock is ahead of the other's.
    pub open spec fn seconds_ahead_of(self, other: SyncMeta) -> int {
        self.current_time.0 - other.current_time.0
    }

    /// The difference of the two clocks, and its size, can be computed.
    pub open spec fn clocks_comparable(self, other: SyncMeta) -> bool {
        i64::MIN < self.seconds_ahead_of(other) <= i64::MAX
    }

    /// The clocks are too far apart.
    pub open spec fn clocks_off(self, other: SyncMeta) -> bool {
        self.seconds_ahead_of(other) > MAX_CLOCK_SKEW || self.seconds_ahead_of(other)
            < -MAX_CLOCK_SKEW
    }

    /// The difference of the two clocks, and its size, can be computed.
    pub fn has_clock_comparable_to(&self, other: &SyncMeta) -> (b: bool)
        ensures
            b == self.clocks_comparable(*other),
    {
        match self.current_time.0.checked_sub(other.current_time.0) {
            Some(delta) => delta != i64::MIN,
            None => false,
        }
    }
}

/// The kind of sync that is needed. A full sync goes in a direction only if it does not put
/// an empty collection in the place of one that is not.
pub open spec fn action_required(remote: SyncMeta, local: SyncMeta) -> SyncActionRequired {
    if remote.modified == local.modified {
        SyncActionRequired::NoChanges
    } else if remote.schema != local.schema {
        SyncActionRequired::FullSyncRequired {
            upload_ok: !local.empty || remote.empty,
            download_ok: !remote.empty || local.empty,
        }
    } else {
        SyncActionRequired::NormalSyncRequired
    }
}

/// Where the two sides stand. Objects that wait to be synced are found by the number
/// of those, and get the server's.
pub open spec fn sync_state(remote: SyncMeta, local: SyncMeta) -> SyncState {
    SyncState {
        required: action_required(remote, local),
        local_is_newer: local.modified.0 > remote.modified.0,
        usn_at_last_sync: local.usn,
        latest_usn: remote.usn,
        pending_usn: Usn(PENDING_USN),
        new_usn: Some(remote.usn),
        server_message: remote.server_message,
        host_number: remote.host_number,
    }
}

/// What is made of the server's word: its message is the error if it does not let the sync
/// go on.
pub open spec fn admitted(remote: SyncMeta) -> Result<SyncMeta, AnkiError> {
    if remote.should_continue {
        Ok(remote)
    } else {
        Err(
            AnkiError::SyncError {
                info: remote.server_message,
                kind: SyncErrorKind::ServerMessage,
            },
        )
    }
}

/// What comes of the two sides' words: the state, unless the clocks are too far apart.
pub open spec fn state_found(
    remote: SyncMeta,
    local: SyncMeta,
    res: Result<SyncState, AnkiError>,
) -> bool {
    if remote.clocks_off(local) {
        res matches Err(e) && e.is_sync_error(
            SyncErrorKind::ClockIncorrect,
            Seq::<char>::empty(),
        )
    } else {
        res == Ok::<SyncState, AnkiError>(sync_state(remote, local))
    }
}

/// Lets the sync go on only if the server does.
pub fn check_admission(remote: SyncMeta) -> (res: Result<SyncMeta, AnkiError>)
    ensures
        res == admitted(remote),
{
    if !remote.should_continue {
        return Err(
            AnkiError::SyncError {
                info: remote.server_message,
                kind: SyncErrorKind::ServerMessage,
            },
        );
    }
    Ok(remote)
}

/// Works out where the two sides stand, once the server has let the sync go on.
pub fn get_sync_state(remote: SyncMeta, local: SyncMeta) -> (res: Result<SyncState, AnkiError>)
    requires
        remote.clocks_comparable(local),
    ensures
        state_found(remote, local, res),
{
    let delta = remote.current_time.0 - local.current_time.0;
    if delta > MAX_CLOCK_SKEW || delta < -MAX_CLOCK_SKEW {
        return Err(
            AnkiError::SyncError { info: String::new(), kind: SyncErrorKind::ClockIncorrect },
        );
    }
    let required = if remote.modified == local.modified {
        SyncActionRequired::NoChanges
    } else if remote.schema != local.schema {
        let upload_ok = !local.empty || remote.empty;
        let download_ok = !remote.empty || local.empty;
        SyncActionRequired::FullSyncRequired { upload_ok, download_ok }
    } else {
        SyncActionRequired::NormalSyncRequired
    };
    Ok(
        SyncState {
            required,
            local_is_newer: local.modified.0 > remote.modified.0,
            usn_at_last_sync: local.usn,
            latest_usn: remote.usn,
            pending_usn: Usn(PENDING_USN),
            new_usn: Some(remote.usn),
            server_message: remote.server_message,
            host_number: remote.host_number,
        },
    )
}

/// A full sync can go in at least one direction, and in both if the two sides are both empty
/// or both not. A direction is closed only where it would put an empty collection in the
/// place of one that is not.
pub proof fn law_full_sync_has_a_direction(remote: SyncMeta, local: SyncMeta)
    ensures
        action_required(remote, local) matches SyncActionRequired::FullSyncRequired {
            upload_ok,
            download_ok,
        } ==> {
            &&& upload_ok || download_ok
            &&& !upload_ok <==> local.empty && !remote.empty
            &&& !download_ok <==> remote.empty && !local.empty
        },
{
}

/// The two sides come to the same result: whether anything is to be done, and whether by a
/// full sync, with upload and download in exchanged roles.
pub proof fn law_both_sides_agree(a: SyncMeta, b: SyncMeta)
    ensures
        a.clocks_off(b) == b.clocks_off(a),
        match action_required(a, b) {
            SyncActionRequired::NoChanges => action_required(b, a)
                == SyncActionRequired::NoChanges,
            SyncActionRequired::NormalSyncRequired => action_required(b, a)
                == SyncActionRequired::NormalSyncRequired,
            SyncActionRequired::FullSyncRequired { upload_ok, download_ok } => action_required(b, a)
                == (SyncActionRequired::FullSyncRequired {
                upload_ok: download_ok,
                download_ok: upload_ok,
            }),
        },
{
}

/// If anything is to be done, one side is the newer and the other is not.
pub proof fn law_one_side_is_newer(a: SyncMeta, b: SyncMeta)
    requires
        action_required(a, b) != SyncActionRequired::NoChanges,
    ensures
        sync_state(a, b).local_is_newer != sync_state(b, a).local_is_newer,
{
}

} // verus!
