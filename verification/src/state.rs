use crate::error::Error;
use crate::info::clone_selection;
use crate::info::selection;
use crate::info::share;
use crate::info::ManagedTorrentInfo;
use crate::initializing::TorrentStateInitializing;
use crate::stats::LiveStats;
use crate::stats::TorrentStats;
use crate::stats::TorrentStatsView;
use std::sync::Arc;
use vstd::prelude::*;

verus! {

/// A torrent at rest: what is known to be on disk, and how much of it.
pub struct TorrentStatePaused<C> {
    /// Which chunks are confirmed present on disk.
    pub chunk_tracker: C,
    /// Bytes confirmed present on disk. Fixed while the torrent stays paused.
    pub have_bytes: u64,
}

/// The phase a torrent is in. `C` is the chunk state of a paused torrent,
/// `L` the session of a live one.
pub enum ManagedTorrentState<C, L> {
    Initializing(Arc<TorrentStateInitializing>),
    Paused(TorrentStatePaused<C>),
    Live(Arc<L>),
    Error(String),
    /// Stands in the record only between taking a phase out and installing
    /// its successor. No reader ever sees it.
    Empty,
}

/// What is left to do for the caller of `start`.
pub enum StartStep<L> {
    /// The torrent is initializing: run the verification of this handle and
    /// report how it ended with `finish_start`.
    Verify(Arc<TorrentStateInitializing>),
    /// The torrent went live: start the tasks that watch this session and
    /// feed it peers.
    Spawn(Arc<L>),
}

/// What a finished verification led to.
pub enum FinishStep<L> {
    /// The torrent had left the initializing phase meanwhile; nothing changed.
    Abandoned,
    /// The torrent is now paused, as asked.
    Paused,
    /// The torrent went live: start the tasks that watch this session and
    /// feed it peers.
    Spawn(Arc<L>),
}

/// What is left to do for someone who waits for the download to complete.
pub enum WaitStep<L> {
    /// Nothing is downloading yet: look again after a while.
    Poll,
    /// The torrent is live: wait on this session.
    Delegate(Arc<L>),
}

/// What `stats` reports while the data on disk is being verified.
pub open spec fn stats_initializing(total_bytes: u64, checked_bytes: u64) -> TorrentStatsView {
    TorrentStatsView {
        total_bytes,
        state: "initializing"@,
        error: None,
        progress_bytes: checked_bytes,
        finished: false,
        live: None,
    }
}

/// What `stats` reports of a paused torrent that has `have_bytes` on disk.
pub open spec fn stats_paused(total_bytes: u64, have_bytes: u64) -> TorrentStatsView {
    TorrentStatsView {
        total_bytes,
        state: "paused"@,
        error: None,
        progress_bytes: have_bytes,
        finished: have_bytes == total_bytes,
        live: None,
    }
}

/// What `stats` reports of a live torrent whose session reports `live`.
pub open spec fn stats_live(total_bytes: u64, live: LiveStats) -> TorrentStatsView {
    TorrentStatsView {
        total_bytes,
        state: "live"@,
        error: None,
        progress_bytes: live.snapshot.have_bytes,
        finished: live.snapshot.have_bytes == total_bytes,
        live: Some(live),
    }
}

/// What `stats` reports of a torrent that failed for the reason `text`.
pub open spec fn stats_failed(total_bytes: u64, text: Seq<char>) -> TorrentStatsView {
    TorrentStatsView {
        total_bytes,
        state: "error"@,
        error: Some(text),
        progress_bytes: 0,
        finished: false,
        live: None,
    }
}

/// What `stats` reports of a torrent of `total_bytes` bytes that is
/// initializing, once `checked_bytes` has been read from the counter of its
/// verification.
pub fn initializing_stats(total_bytes: u64, checked_bytes: u64) -> (stats: TorrentStats)
    ensures
        stats@ == stats_initializing(total_bytes, checked_bytes),
{
    TorrentStats {
        total_bytes,
        state: "initializing",
        error: None,
        progress_bytes: checked_bytes,
        finished: false,
        live: None,
    }
}

impl<C, L> ManagedTorrentState<C, L> {
    /// A phase that readers may see: any but the placeholder.
    pub open spec fn is_visible(&self) -> bool {
        !(self is Empty)
    }

    /// The phase of a torrent that was just built.
    pub fn initial(info: Arc<ManagedTorrentInfo>, only_files: Option<Vec<usize>>) -> (state: Self)
        ensures
            state matches ManagedTorrentState::Initializing(init) && init.meta == info
                && init.only_files == only_files,
    {
        ManagedTorrentState::Initializing(Arc::new(TorrentStateInitializing::new(info, only_files)))
    }

    /// Moves the phase out and leaves the placeholder behind.
    pub fn take(&mut self) -> (taken: Self)
        ensures
            taken == *old(self),
            *final(self) == ManagedTorrentState::<C, L>::Empty,
    {
        let mut taken = ManagedTorrentState::Empty;
        std::mem::swap(self, &mut taken);
        taken
    }

    /// The snapshot of a paused torrent.
    pub fn assert_paused(self) -> (paused: TorrentStatePaused<C>)
        requires
            self is Paused,
        ensures
            self == ManagedTorrentState::<C, L>::Paused(paused),
    {
        match self {
            ManagedTorrentState::Paused(paused) => paused,
            _ => vstd::pervasive::unreached(),
        }
    }

    /// The session of a live torrent, `None` in every other phase.
    pub open spec fn spec_live(&self) -> Option<Arc<L>> {
        match *self {
            ManagedTorrentState::Live(live) => Some(live),
            _ => None,
        }
    }

    /// What someone who waits for the download to complete does next.
    pub open spec fn spec_completion_step(&self) -> Result<WaitStep<L>, Error> {
        match *self {
            ManagedTorrentState::Initializing(_) | ManagedTorrentState::Paused(_) => Ok(
                WaitStep::Poll,
            ),
            ManagedTorrentState::Live(live) => Ok(WaitStep::Delegate(live)),
            ManagedTorrentState::Error(cause) => Err(Error::Failed(cause)),
            ManagedTorrentState::Empty => Err(Error::EmptyStateWhileWaiting),
        }
    }

    /// The session, while the torrent is live.
    #[verifier::when_used_as_spec(spec_live)]
    pub fn live(&self) -> (session: Option<Arc<L>>)
        ensures
            session == self.spec_live(),
    {
        match self {
            ManagedTorrentState::Live(live) => Some(share(live)),
            _ => None,
        }
    }

    /// What `start` does to each phase: `before` becomes `after` and the
    /// caller gets `res`.
    pub open spec fn start_post<F: FnOnce(TorrentStatePaused<C>) -> L>(
        before: Self,
        after: Self,
        info: Arc<ManagedTorrentInfo>,
        only_files: Option<Vec<usize>>,
        make_live: F,
        res: Result<StartStep<L>, Error>,
    ) -> bool {
        match before {
            ManagedTorrentState::Live(_) => after == before && res == Err::<StartStep<L>, Error>(
                Error::AlreadyLive,
            ),
            ManagedTorrentState::Initializing(init) => after == before && res == Ok::<
                StartStep<L>,
                Error,
            >(StartStep::Verify(init)),
            ManagedTorrentState::Paused(paused) => res matches Ok(StartStep::Spawn(live))
                && call_ensures(make_live, (paused,), *live) && after
                == ManagedTorrentState::<C, L>::Live(live),
            ManagedTorrentState::Error(_) => res matches Ok(StartStep::Verify(init)) && after
                == ManagedTorrentState::<C, L>::Initializing(init) && init.meta == info
                && selection(init.only_files) == selection(only_files),
            ManagedTorrentState::Empty => after == before && res == Err::<StartStep<L>, Error>(
                Error::EmptyState,
            ),
        }
    }

    /// Starts the torrent from whatever phase it is in. A live torrent
    /// refuses. A paused one goes live at once, with the session that
    /// `make_live` builds from its snapshot. An initializing one stays as it
    /// is and hands out the verification to run. A failed one forgets its
    /// failure and begins a new verification.
    pub fn start<F>(
        &mut self,
        info: &Arc<ManagedTorrentInfo>,
        only_files: &Option<Vec<usize>>,
        make_live: F,
    ) -> (res: Result<StartStep<L>, Error>) where F: FnOnce(TorrentStatePaused<C>) -> L
        requires
            forall|paused: TorrentStatePaused<C>| call_requires(make_live, (paused,)),
        ensures
            Self::start_post(*old(self), *final(self), *info, *only_files, make_live, res),
            final(self).is_visible() == old(self).is_visible(),
    {
        match self.take() {
            ManagedTorrentState::Live(live) => {
                *self = ManagedTorrentState::Live(live);
                Err(Error::AlreadyLive)
            },
            ManagedTorrentState::Initializing(init) => {
                let handle = share(&init);
                *self = ManagedTorrentState::Initializing(init);
                Ok(StartStep::Verify(handle))
            },
            ManagedTorrentState::Paused(paused) => {
                let live = Arc::new(make_live(paused));
                let handle = share(&live);
                *self = ManagedTorrentState::Live(live);
                Ok(StartStep::Spawn(handle))
            },
            ManagedTorrentState::Error(_) => {
                let init = Arc::new(
                    TorrentStateInitializing::new(share(info), clone_selection(only_files)),
                );
                let handle = share(&init);
                *self = ManagedTorrentState::Initializing(init);
                Ok(StartStep::Verify(handle))
            },
            ManagedTorrentState::Empty => Err(Error::EmptyState),
        }
    }

    /// What `finish_start` does with the outcome of a verification.
    pub open spec fn finish_start_post<F: FnOnce(TorrentStatePaused<C>) -> L>(
        before: Self,
        after: Self,
        outcome: Result<TorrentStatePaused<C>, String>,
        start_paused: bool,
        make_live: F,
        res: Result<FinishStep<L>, Error>,
    ) -> bool {
        match outcome {
            Err(cause) => after == ManagedTorrentState::<C, L>::Error(cause) && res == Err::<
                FinishStep<L>,
                Error,
            >(Error::Failed(cause)),
            Ok(paused) => if !(before is Initializing) {
                after == before && res == Ok::<FinishStep<L>, Error>(FinishStep::Abandoned)
            } else if start_paused {
                after == ManagedTorrentState::<C, L>::Paused(paused) && res == Ok::<
                    FinishStep<L>,
                    Error,
                >(FinishStep::Paused)
            } else {
                res matches Ok(FinishStep::Spawn(live)) && call_ensures(
                    make_live,
                    (paused,),
                    *live,
                ) && after == ManagedTorrentState::<C, L>::Live(live)
            },
        }
    }

    /// Takes the outcome of the verification that `start` handed out. A
    /// failure becomes the phase and goes back to the caller. A success is
    /// dropped if the torrent is no longer initializing; else the torrent
    /// becomes paused where `start_paused` asks for it, and live otherwise.
    pub fn finish_start<F>(
        &mut self,
        outcome: Result<TorrentStatePaused<C>, String>,
        start_paused: bool,
        make_live: F,
    ) -> (res: Result<FinishStep<L>, Error>) where F: FnOnce(TorrentStatePaused<C>) -> L
        requires
            forall|paused: TorrentStatePaused<C>| call_requires(make_live, (paused,)),
        ensures
            Self::finish_start_post(*old(self), *final(self), outcome, start_paused, make_live, res),
            old(self).is_visible() ==> final(self).is_visible(),
    {
        match outcome {
            Err(cause) => {
                *self = ManagedTorrentState::Error(cause.clone());
                Err(Error::Failed(cause))
            },
            Ok(paused) => {
                match self {
                    ManagedTorrentState::Initializing(_) => {},
                    _ => {
                        return Ok(FinishStep::Abandoned);
                    },
                }
                if start_paused {
                    *self = ManagedTorrentState::Paused(paused);
                    return Ok(FinishStep::Paused);
                }
                let live = Arc::new(make_live(paused));
                let handle = share(&live);
                *self = ManagedTorrentState::Live(live);
                Ok(FinishStep::Spawn(handle))
            },
        }
    }

    /// What `pause` does to each phase.
    pub open spec fn pause_post<F: FnOnce(&L) -> Result<TorrentStatePaused<C>, String>>(
        before: Self,
        after: Self,
        pause_live: F,
        res: Result<(), Error>,
    ) -> bool {
        match before {
            ManagedTorrentState::Live(live) => match res {
                Ok(_) => after matches ManagedTorrentState::Paused(paused) && call_ensures(
                    pause_live,
                    (&*live,),
                    Ok::<TorrentStatePaused<C>, String>(paused),
                ),
                Err(e) => e matches Error::Failed(cause) && call_ensures(
                    pause_live,
                    (&*live,),
                    Err::<TorrentStatePaused<C>, String>(cause),
                ) && after == before,
            },
            ManagedTorrentState::Initializing(_) => after == before && res == Err::<(), Error>(
                Error::Initializing,
            ),
            ManagedTorrentState::Paused(_) => after == before && res == Err::<(), Error>(
                Error::AlreadyPaused,
            ),
            ManagedTorrentState::Error(_) => after == before && res == Err::<(), Error>(
                Error::InErrorState,
            ),
            ManagedTorrentState::Empty => after == before && res == Err::<(), Error>(
                Error::EmptyState,
            ),
        }
    }

    /// Pauses a live torrent: asks its session to pause, with `pause_live`,
    /// and installs the snapshot that the session gives back. Where the
    /// session refuses, its reason is returned and the torrent stays live.
    /// In every other phase nothing changes and the error says which phase
    /// it was.
    pub fn pause<F>(&mut self, pause_live: F) -> (res: Result<(), Error>) where
        F: FnOnce(&L) -> Result<TorrentStatePaused<C>, String>,
        requires
            forall|live: L| call_requires(pause_live, (&live,)),
        ensures
            Self::pause_post(*old(self), *final(self), pause_live, res),
            final(self).is_visible() == old(self).is_visible(),
    {
        match self.take() {
            ManagedTorrentState::Live(live) => {
                match pause_live(&live) {
                    Ok(paused) => {
                        *self = ManagedTorrentState::Paused(paused);
                        Ok(())
                    },
                    Err(cause) => {
                        *self = ManagedTorrentState::Live(live);
                        Err(Error::Failed(cause))
                    },
                }
            },
            ManagedTorrentState::Initializing(init) => {
                *self = ManagedTorrentState::Initializing(init);
                Err(Error::Initializing)
            },
            ManagedTorrentState::Paused(paused) => {
                *self = ManagedTorrentState::Paused(paused);
                Err(Error::AlreadyPaused)
            },
            ManagedTorrentState::Error(cause) => {
                *self = ManagedTorrentState::Error(cause);
                Err(Error::InErrorState)
            },
            ManagedTorrentState::Empty => Err(Error::EmptyState),
        }
    }

    /// What `stop_with_error` does: the phase becomes the failure, and a
    /// session that was live has been asked to pause.
    pub open spec fn stop_post<F: FnOnce(&L) -> Result<TorrentStatePaused<C>, String>>(
        before: Self,
        after: Self,
        cause: String,
        pause_live: F,
        told: Option<Result<TorrentStatePaused<C>, String>>,
    ) -> bool {
        &&& after == ManagedTorrentState::<C, L>::Error(cause)
        &&& match before {
            ManagedTorrentState::Live(live) => told matches Some(answer) && call_ensures(
                pause_live,
                (&*live,),
                answer,
            ),
            _ => told is None,
        }
    }

    /// Records a fatal failure. A live session is asked to pause first, with
    /// `pause_live`; what it answers comes back to the caller and changes
    /// nothing: the phase is the failure afterwards, whatever it was before.
    pub fn stop_with_error<F>(&mut self, cause: String, pause_live: F) -> (told: Option<
        Result<TorrentStatePaused<C>, String>,
    >) where F: FnOnce(&L) -> Result<TorrentStatePaused<C>, String>
        requires
            forall|live: L| call_requires(pause_live, (&live,)),
        ensures
            Self::stop_post(*old(self), *final(self), cause, pause_live, told),
            final(self).is_visible(),
    {
        let told = match self.take() {
            ManagedTorrentState::Live(live) => Some(pause_live(&live)),
            _ => None,
        };
        *self = ManagedTorrentState::Error(cause);
        told
    }

    /// What `stats` reports of each phase.
    pub open spec fn stats_post<F: FnOnce(&L) -> LiveStats>(
        self,
        total_bytes: u64,
        live_stats: F,
        stats: TorrentStats,
    ) -> bool {
        match self {
            ManagedTorrentState::Initializing(_) => stats@ == stats_initializing(
                total_bytes,
                stats.progress_bytes,
            ),
            ManagedTorrentState::Paused(paused) => stats@ == stats_paused(
                total_bytes,
                paused.have_bytes,
            ),
            ManagedTorrentState::Live(live) => stats.live matches Some(reported) && call_ensures(
                live_stats,
                (&*live,),
                reported,
            ) && stats@ == stats_live(total_bytes, reported),
            ManagedTorrentState::Error(cause) => stats@ == stats_failed(total_bytes, cause@),
            ManagedTorrentState::Empty => stats@ == stats_failed(
                total_bytes,
                "bug: torrent in broken \"None\" state"@,
            ),
        }
    }

    /// The torrent at this moment: its size, the name of its phase, how far
    /// it is, and, while it is live, what `live_stats` reads from its session.
    /// While it is initializing, how far it is is what the counter of the
    /// verification holds when it is read: see [`initializing_stats`].
    pub fn stats<F>(&self, total_bytes: u64, live_stats: F) -> (stats: TorrentStats) where
        F: FnOnce(&L) -> LiveStats,
        requires
            forall|live: L| call_requires(live_stats, (&live,)),
        ensures
            self.stats_post(total_bytes, live_stats, stats),
    {
        let mut resp = TorrentStats {
            total_bytes,
            state: "",
            error: None,
            progress_bytes: 0,
            finished: false,
            live: None,
        };
        match self {
            ManagedTorrentState::Initializing(init) => {
                return initializing_stats(total_bytes, init.progress());
            },
            ManagedTorrentState::Paused(paused) => {
                resp.state = "paused";
                resp.progress_bytes = paused.have_bytes;
                resp.finished = paused.have_bytes == total_bytes;
            },
            ManagedTorrentState::Live(live) => {
                resp.state = "live";
                let reported = live_stats(live);
                resp.progress_bytes = reported.snapshot.have_bytes;
                resp.finished = resp.progress_bytes == total_bytes;
                resp.live = Some(reported);
            },
            ManagedTorrentState::Error(cause) => {
                resp.state = "error";
                resp.error = Some(cause.clone());
            },
            ManagedTorrentState::Empty => {
                resp.state = "error";
                resp.error = Some("bug: torrent in broken \"None\" state".to_owned());
            },
        }
        resp
    }

    /// What someone who waits for the download to complete does next:
    /// look again later while the torrent is initializing or paused, wait on
    /// the session while it is live, give up with the cause once it has
    /// failed.
    #[verifier::when_used_as_spec(spec_completion_step)]
    pub fn completion_step(&self) -> (res: Result<WaitStep<L>, Error>)
        ensures
            res == self.spec_completion_step(),
    {
        match self {
            ManagedTorrentState::Initializing(_) | ManagedTorrentState::Paused(_) => Ok(
                WaitStep::Poll,
            ),
            ManagedTorrentState::Live(live) => Ok(WaitStep::Delegate(share(live))),
            ManagedTorrentState::Error(cause) => Err(Error::Failed(cause.clone())),
            ManagedTorrentState::Empty => Err(Error::EmptyStateWhileWaiting),
        }
    }

    /// What `with_chunk_tracker` gives in each phase.
    pub open spec fn chunks_post<R, F: FnOnce(&C) -> R, G: FnOnce(&L, F) -> Result<R, String>>(
        self,
        f: F,
        live_chunks: G,
        res: Result<R, Error>,
    ) -> bool {
        match self {
            ManagedTorrentState::Paused(paused) => res matches Ok(r) && call_ensures(
                f,
                (&paused.chunk_tracker,),
                r,
            ),
            ManagedTorrentState::Live(live) => match res {
                Ok(r) => call_ensures(live_chunks, (&*live, f), Ok::<R, String>(r)),
                Err(e) => e matches Error::Failed(cause) && call_ensures(
                    live_chunks,
                    (&*live, f),
                    Err::<R, String>(cause),
                ),
            },
            _ => res == Err::<R, Error>(Error::NoChunkTracker),
        }
    }

    /// Runs `f` on the chunk state of the torrent: its own while paused, that
    /// of the session, through `live_chunks`, while live. `live_chunks` fails
    /// where the session has closed meanwhile. In the other phases there is
    /// no chunk state.
    pub fn with_chunk_tracker<R, F, G>(&self, f: F, live_chunks: G) -> (res: Result<
        R,
        Error,
    >) where F: FnOnce(&C) -> R, G: FnOnce(&L, F) -> Result<R, String>
        requires
            forall|chunks: C| call_requires(f, (&chunks,)),
            forall|live: L| call_requires(live_chunks, (&live, f)),
        ensures
            self.chunks_post(f, live_chunks, res),
    {
        match self {
            ManagedTorrentState::Paused(paused) => Ok(f(&paused.chunk_tracker)),
            ManagedTorrentState::Live(live) => match live_chunks(live, f) {
                Ok(r) => Ok(r),
                Err(cause) => Err(Error::Failed(cause)),
            },
            _ => Err(Error::NoChunkTracker),
        }
    }
}

} // verus!
