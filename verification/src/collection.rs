//! What the library has to know of the collection itself.

use vstd::prelude::*;

verus! {

/// The local collection. The objects in it are reached through the storage; here stands only
/// what decisions rest on.
#[derive(Debug, Clone, Copy, PartialEq, Eq, Structural)]
pub struct Collection {
    /// The collection is held by a sync server.
    pub server: bool,
}

} // verus!
