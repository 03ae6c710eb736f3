use vstd::prelude::*;

verus! {

/// Counters that a live session reports about itself.
#[derive(Clone, Copy, Debug, PartialEq, Eq, Structural)]
pub struct StatsSnapshot {
    /// Bytes confirmed present on disk.
    pub have_bytes: u64,
    /// Bytes received from peers since the session started.
    pub fetched_bytes: u64,
    /// Bytes sent to peers since the session started.
    pub uploaded_bytes: u64,
}

/// Statistics of a live session at one moment.
#[derive(Clone, Copy, Debug, PartialEq, Eq, Structural)]
pub struct LiveStats {
    pub snapshot: StatsSnapshot,
}

/// What a torrent looks like at one moment, whatever phase it is in.
#[derive(Debug)]
pub struct TorrentStats {
    pub total_bytes: u64,
    pub state: &'static str,
    pub error: Option<String>,
    pub progress_bytes: u64,
    pub finished: bool,
    pub live: Option<LiveStats>,
}

/// The mathematical content of a [`TorrentStats`]: texts as sequences of characters.
pub struct TorrentStatsView {
    pub total_bytes: u64,
    pub state: Seq<char>,
    pub error: Option<Seq<char>>,
    pub progress_bytes: u64,
    pub finished: bool,
    pub live: Option<LiveStats>,
}

impl View for TorrentStats {
    type V = TorrentStatsView;

    open spec fn view(&self) -> TorrentStatsView {
        TorrentStatsView {
            total_bytes: self.total_bytes,
            state: self.state@,
            error: match self.error {
                Some(text) => Some(text@),
                None => None,
            },
            progress_bytes: self.progress_bytes,
            finished: self.finished,
            live: self.live,
        }
    }
}

} // verus!
