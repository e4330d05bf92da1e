//! What can go wrong.

use vstd::prelude::*;

verus! {

/// The reason that a sync was given up.
#[derive(Debug, Clone, Copy, PartialEq, Eq, Structural)]
pub enum SyncErrorKind {
    /// The server asked the client to stop; its message says why.
    ServerMessage,
    /// The clocks of the two sides are too far apart.
    ClockIncorrect,
    /// The two sides disagree on what the collection holds.
    DatabaseCheckRequired,
    /// A note type was changed in a way that a normal sync cannot carry over.
    ResyncRequired,
    Other,
}

/// An error, raised here or handed on from the storage or the server.
#[derive(Debug)]
pub enum AnkiError {
    InvalidInput { info: String },
    DBError { info: String },
    IOError { info: String },
    NetworkError { info: String },
    SyncError { info: String, kind: SyncErrorKind },
}

impl AnkiError {
    /// This is the sync error of that kind, with that text.
    pub open spec fn is_sync_error(self, kind: SyncErrorKind, info: Seq<char>) -> bool {
        match self {
            AnkiError::SyncError { info: text, kind: reason } => reason == kind && text@ == info,
            _ => false,
        }
    }

    /// This is the error on an input that cannot be used, with that text.
    pub open spec fn is_invalid_input(self, info: Seq<char>) -> bool {
        match self {
            AnkiError::InvalidInput { info: text } => text@ == info,
            _ => false,
        }
    }

    pub fn sync_error(info: &str, kind: SyncErrorKind) -> (error: AnkiError)
        ensures
            error.is_sync_error(kind, info@),
    {
        AnkiError::SyncError { info: info.to_string(), kind }
    }

    pub fn invalid_input(info: &str) -> (error: AnkiError)
        ensures
            error.is_invalid_input(info@),
    {
        AnkiError::InvalidInput { info: info.to_string() }
    }
}

} // verus!
