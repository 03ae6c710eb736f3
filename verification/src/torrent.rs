use crate::error::Error;
use crate::info::clone_selection;
use crate::info::selection;
use crate::info::ManagedTorrentInfo;
use crate::metainfo::Id20;
use crate::record::new_record;
use crate::record::read_gives;
use crate::record::read_record;
use crate::record::write_gives;
use crate::record::write_record;
use crate::record::ManagedTorrentLocked;
use crate::state::FinishStep;
use crate::state::ManagedTorrentState;
use crate::state::StartStep;
use crate::state::TorrentStatePaused;
use crate::state::WaitStep;
use crate::stats::LiveStats;
use crate::stats::TorrentStats;
use parking_lot::RwLock;
use std::sync::Arc;
use vstd::prelude::*;

verus! {

/// One torrent: what it is, and the phase it is in, behind a lock. Any
/// number of readers look at the phase at a time; a transition has it alone.
/// A function that is handed to a method of the torrent runs while the lock
/// is held: it must not call a method of the same torrent.
#[verifier::reject_recursive_types(C)]
#[verifier::reject_recursive_types(L)]
pub struct ManagedTorrent<C, L> {
    pub info: Arc<ManagedTorrentInfo>,
    pub(crate) only_files: Option<Vec<usize>>,
    locked: RwLock<ManagedTorrentLocked<C, L>>,
}

/// A torrent as its holders share it.
pub type ManagedTorrentHandle<C, L> = Arc<ManagedTorrent<C, L>>;

impl<C, L> ManagedTorrent<C, L> {
    /// What the torrent is.
    pub closed spec fn spec_info(&self) -> Arc<ManagedTorrentInfo> {
        self.info
    }

    /// The files that are wanted, or `None` for all of them.
    pub closed spec fn spec_only_files(&self) -> Option<Seq<usize>> {
        selection(self.only_files)
    }

    /// The files that are wanted, as they are stored.
    pub closed spec fn spec_stored_files(&self) -> Option<Vec<usize>> {
        self.only_files
    }

    /// A torrent in its first phase: initializing.
    pub fn new(info: Arc<ManagedTorrentInfo>, only_files: Option<Vec<usize>>) -> (torrent: Self)
        ensures
            torrent.spec_info() == info,
            torrent.spec_only_files() == selection(only_files),
    {
        let state = ManagedTorrentState::initial(
            crate::info::share(&info),
            clone_selection(&only_files),
        );
        ManagedTorrent { info, only_files, locked: new_record(ManagedTorrentLocked { state }) }
    }

    /// What the torrent is.
    pub fn info(&self) -> (info: &ManagedTorrentInfo)
        ensures
            *info == *self.spec_info(),
    {
        &self.info
    }

    /// How many bytes the files of the torrent hold together.
    pub fn get_total_bytes(&self) -> (total: u64)
        ensures
            total == self.spec_info().lengths.spec_total_length(),
    {
        self.info.lengths.total_length()
    }

    /// The hash that names the torrent.
    pub fn info_hash(&self) -> (hash: Id20)
        ensures
            hash == self.spec_info().info_hash,
    {
        self.info.info_hash
    }

    /// The files that are wanted, or `None` for all of them.
    pub fn only_files(&self) -> (files: Option<Vec<usize>>)
        ensures
            selection(files) == self.spec_only_files(),
    {
        clone_selection(&self.only_files)
    }

    /// Runs `f` on the current phase, under shared access. Whatever the
    /// moment, the phase is one that readers may see.
    pub fn with_state<R, F>(&self, f: F) -> (r: R) where F: FnOnce(&ManagedTorrentState<C, L>) -> R
        requires
            forall|s: ManagedTorrentState<C, L>| s.is_visible() ==> call_requires(f, (&s,)),
        ensures
            read_gives(f, r),
    {
        read_record(&self.locked, f)
    }

    /// Runs `f` on the current phase, under exclusive access, and installs
    /// the phase that it returns.
    pub(crate) fn with_state_mut<R, F>(&self, f: F) -> (r: R) where
        F: FnOnce(ManagedTorrentState<C, L>) -> (ManagedTorrentState<C, L>, R),
        requires
            forall|s: ManagedTorrentState<C, L>| s.is_visible() ==> call_requires(f, (s,)),
            forall|s: ManagedTorrentState<C, L>, out: (ManagedTorrentState<C, L>, R)|
                s.is_visible() && call_ensures(f, (s,), out) ==> out.0.is_visible(),
        ensures
            write_gives(f, r),
    {
        write_record(&self.locked, ManagedTorrentState::Empty, f)
    }

    /// The session, if the torrent is live at this moment.
    pub fn live(&self) -> (session: Option<Arc<L>>)
        ensures
            exists|s: ManagedTorrentState<C, L>| s.is_visible() && session == s.spec_live(),
    {
        let f = |s: &ManagedTorrentState<C, L>| -> (session: Option<Arc<L>>)
            ensures
                session == s.spec_live(),
            { s.live() };
        self.with_state(f)
    }

    /// Runs `f` on the chunk state of the torrent as it is at this moment:
    /// see [`ManagedTorrentState::with_chunk_tracker`].
    pub fn with_chunk_tracker<R, F, G>(&self, f: F, live_chunks: G) -> (res: Result<
        R,
        Error,
    >) where F: FnOnce(&C) -> R, G: FnOnce(&L, F) -> Result<R, String>
        requires
            forall|chunks: C| call_requires(f, (&chunks,)),
            forall|live: L| call_requires(live_chunks, (&live, f)),
        ensures
            exists|s: ManagedTorrentState<C, L>|
                s.is_visible() && s.chunks_post(f, live_chunks, res),
    {
        let g = |s: &ManagedTorrentState<C, L>| -> (res: Result<R, Error>)
            ensures
                s.chunks_post(f, live_chunks, res),
            { s.with_chunk_tracker(f, live_chunks) };
        self.with_state(g)
    }

    /// Records a fatal failure as the phase of the torrent: see
    /// [`ManagedTorrentState::stop_with_error`].
    pub fn stop_with_error<F>(&self, cause: String, pause_live: F) -> (told: Option<
        Result<TorrentStatePaused<C>, String>,
    >) where F: FnOnce(&L) -> Result<TorrentStatePaused<C>, String>
        requires
            forall|live: L| call_requires(pause_live, (&live,)),
        ensures
            exists|before: ManagedTorrentState<C, L>, after: ManagedTorrentState<C, L>|
                before.is_visible() && after.is_visible() && ManagedTorrentState::stop_post(
                    before,
                    after,
                    cause,
                    pause_live,
                    told,
                ),
    {
        let f = |s: ManagedTorrentState<C, L>| -> (out: (
            ManagedTorrentState<C, L>,
            Option<Result<TorrentStatePaused<C>, String>>,
        ))
            ensures
                out.0.is_visible(),
                ManagedTorrentState::stop_post(s, out.0, cause, pause_live, out.1),
            {
                let mut s = s;
                let told = s.stop_with_error(cause, pause_live);
                (s, told)
            };
        self.with_state_mut(f)
    }

    /// Starts the torrent from the phase it is in at this moment: see
    /// [`ManagedTorrentState::start`].
    pub fn start<F>(&self, make_live: F) -> (res: Result<StartStep<L>, Error>) where
        F: FnOnce(TorrentStatePaused<C>) -> L,
        requires
            forall|paused: TorrentStatePaused<C>| call_requires(make_live, (paused,)),
        ensures
            exists|before: ManagedTorrentState<C, L>, after: ManagedTorrentState<C, L>|
                before.is_visible() && after.is_visible() && ManagedTorrentState::start_post(
                    before,
                    after,
                    self.spec_info(),
                    self.spec_stored_files(),
                    make_live,
                    res,
                ),
    {
        let f = |s: ManagedTorrentState<C, L>| -> (out: (
            ManagedTorrentState<C, L>,
            Result<StartStep<L>, Error>,
        ))
            requires
                s.is_visible(),
            ensures
                out.0.is_visible(),
                ManagedTorrentState::start_post(
                    s,
                    out.0,
                    self.info,
                    self.only_files,
                    make_live,
                    out.1,
                ),
            {
                let mut s = s;
                let res = s.start(&self.info, &self.only_files, make_live);
                (s, res)
            };
        self.with_state_mut(f)
    }

    /// Takes the outcome of the verification that `start` handed out: see
    /// [`ManagedTorrentState::finish_start`].
    pub fn finish_start<F>(
        &self,
        outcome: Result<TorrentStatePaused<C>, String>,
        start_paused: bool,
        make_live: F,
    ) -> (res: Result<FinishStep<L>, Error>) where F: FnOnce(TorrentStatePaused<C>) -> L
        requires
            forall|paused: TorrentStatePaused<C>| call_requires(make_live, (paused,)),
        ensures
            exists|before: ManagedTorrentState<C, L>, after: ManagedTorrentState<C, L>|
                before.is_visible() && after.is_visible()
                    && ManagedTorrentState::finish_start_post(
                    before,
                    after,
                    outcome,
                    start_paused,
                    make_live,
                    res,
                ),
    {
        let f = |s: ManagedTorrentState<C, L>| -> (out: (
            ManagedTorrentState<C, L>,
            Result<FinishStep<L>, Error>,
        ))
            requires
                s.is_visible(),
            ensures
                out.0.is_visible(),
                ManagedTorrentState::finish_start_post(
                    s,
                    out.0,
                    outcome,
                    start_paused,
                    make_live,
                    out.1,
                ),
            {
                let mut s = s;
                let res = s.finish_start(outcome, start_paused, make_live);
                (s, res)
            };
        self.with_state_mut(f)
    }

    /// The torrent at this moment: see [`ManagedTorrentState::stats`].
    pub fn stats<F>(&self, live_stats: F) -> (stats: TorrentStats) where
        F: FnOnce(&L) -> LiveStats,
        requires
            forall|live: L| call_requires(live_stats, (&live,)),
        ensures
            exists|s: ManagedTorrentState<C, L>|
                s.is_visible() && s.stats_post(
                    self.spec_info().lengths.spec_total_length(),
                    live_stats,
                    stats,
                ),
    {
        let total_bytes = self.get_total_bytes();
        let f = |s: &ManagedTorrentState<C, L>| -> (stats: TorrentStats)
            ensures
                s.stats_post(total_bytes, live_stats, stats),
            { s.stats(total_bytes, live_stats) };
        self.with_state(f)
    }

    /// What someone who waits for the download to complete does next, going
    /// by the phase at this moment: see
    /// [`ManagedTorrentState::completion_step`].
    pub fn completion_step(&self) -> (res: Result<WaitStep<L>, Error>)
        ensures
            exists|s: ManagedTorrentState<C, L>|
                s.is_visible() && res == s.spec_completion_step(),
    {
        let f = |s: &ManagedTorrentState<C, L>| -> (res: Result<WaitStep<L>, Error>)
            ensures
                res == s.spec_completion_step(),
            { s.completion_step() };
        self.with_state(f)
    }

    /// Pauses the torrent if it is live at this moment: see
    /// [`ManagedTorrentState::pause`].
    pub fn pause<F>(&self, pause_live: F) -> (res: Result<(), Error>) where
        F: FnOnce(&L) -> Result<TorrentStatePaused<C>, String>,
        requires
            forall|live: L| call_requires(pause_live, (&live,)),
        ensures
            exists|before: ManagedTorrentState<C, L>, after: ManagedTorrentState<C, L>|
                before.is_visible() && after.is_visible() && ManagedTorrentState::pause_post(
                    before,
                    after,
                    pause_live,
                    res,
                ),
    {
        let f = |s: ManagedTorrentState<C, L>| -> (out: (ManagedTorrentState<C, L>, Result<(), Error>))
            requires
                s.is_visible(),
            ensures
                out.0.is_visible(),
                ManagedTorrentState::pause_post(s, out.0, pause_live, out.1),
            {
                let mut s = s;
                let res = s.pause(pause_live);
                (s, res)
            };
        self.with_state_mut(f)
    }
}

} // verus!
