use crate::info::ManagedTorrentInfo;
use std::sync::atomic::AtomicU64;
use std::sync::atomic::Ordering;
use std::sync::Arc;
use vstd::prelude::*;

verus! {

/// A torrent whose data on disk is being verified.
pub struct TorrentStateInitializing {
    pub meta: Arc<ManagedTorrentInfo>,
    pub only_files: Option<Vec<usize>>,
    /// Bytes verified so far. The job that verifies adds to it as it goes.
    pub checked_bytes: AtomicU64,
}

impl TorrentStateInitializing {
    /// A verification that has not looked at any byte yet.
    pub fn new(meta: Arc<ManagedTorrentInfo>, only_files: Option<Vec<usize>>) -> (init: Self)
        ensures
            init.meta == meta,
            init.only_files == only_files,
    {
        TorrentStateInitializing { meta, only_files, checked_bytes: AtomicU64::new(0) }
    }

    /// Bytes verified so far: whatever the counter holds at this moment.
    pub fn progress(&self) -> u64 {
        self.checked_bytes.load(Ordering::Relaxed)
    }
}

} // verus!
