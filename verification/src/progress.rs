//! How far a sync has come.

use vstd::prelude::*;

verus! {

/// The stage that a normal sync is in.
#[derive(Debug, Clone, Copy, PartialEq, Eq, Structural)]
pub enum SyncStage {
    Connecting,
    Syncing,
    Finalizing,
}

impl Default for SyncStage {
    fn default() -> (stage: Self)
        ensures
            stage == SyncStage::Connecting,
    {
        SyncStage::Connecting
    }
}

/// How far a normal sync has come: the numbers of objects sent and received.
#[derive(Debug, Clone, Copy, PartialEq, Eq, Structural)]
pub struct NormalSyncProgress {
    pub stage: SyncStage,
    pub local_update: usize,
    pub local_remove: usize,
    pub remote_update: usize,
    pub remote_remove: usize,
}

/// The progress of a sync that has not begun.
pub open spec fn no_progress() -> NormalSyncProgress {
    NormalSyncProgress {
        stage: SyncStage::Connecting,
        local_update: 0,
        local_remove: 0,
        remote_update: 0,
        remote_remove: 0,
    }
}

impl Default for NormalSyncProgress {
    fn default() -> (progress: Self)
        ensures
            progress == no_progress(),
    {
        NormalSyncProgress {
            stage: SyncStage::default(),
            local_update: 0,
            local_remove: 0,
            remote_update: 0,
            remote_remove: 0,
        }
    }
}

/// How far an upload or download of the whole collection has come.
#[derive(Debug, Clone, Copy, PartialEq, Eq, Structural)]
pub struct FullSyncProgress {
    pub transferred_bytes: usize,
    pub total_bytes: usize,
}

impl Default for FullSyncProgress {
    fn default() -> (progress: Self)
        ensures
            progress == (FullSyncProgress { transferred_bytes: 0, total_bytes: 0 }),
    {
        FullSyncProgress { transferred_bytes: 0, total_bytes: 0 }
    }
}

/// Progress as it is reported. A report may be left out when it is throttled.
#[derive(Debug, Clone, Copy, PartialEq, Eq, Structural)]
pub struct ProgressReport {
    pub progress: NormalSyncProgress,
    pub throttle: bool,
}

} // verus!
