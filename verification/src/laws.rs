use crate::error::Error;
use crate::info::ManagedTorrentInfo;
use crate::state::FinishStep;
use crate::state::ManagedTorrentState;
use crate::state::StartStep;
use crate::state::TorrentStatePaused;
use crate::stats::LiveStats;
use crate::stats::TorrentStats;
use crate::tasks::ingest_post;
use crate::tasks::watch_post;
use crate::tasks::IngestStep;
use crate::tasks::WatchOutcome;
use crate::torrent::ManagedTorrent;
use std::sync::Arc;
use vstd::prelude::*;

verus! {

/// Whatever `pause_live` is asked, it answers with a snapshot.
pub open spec fn never_refuses<C, L, F: FnOnce(&L) -> Result<TorrentStatePaused<C>, String>>(
    pause_live: F,
) -> bool {
    forall|live: L, answer: Result<TorrentStatePaused<C>, String>|
        call_ensures(pause_live, (&live,), answer) ==> answer is Ok
}

/// No transition leaves the placeholder behind: where readers could see the
/// phase before `start`, `finish_start`, `pause` or `stop_with_error`, they
/// can see the phase after it.
pub proof fn law_transitions_leave_a_phase<C, L, M, P>(
    before: ManagedTorrentState<C, L>,
    after: ManagedTorrentState<C, L>,
    info: Arc<ManagedTorrentInfo>,
    only_files: Option<Vec<usize>>,
    make_live: M,
    started: Result<StartStep<L>, Error>,
    outcome: Result<TorrentStatePaused<C>, String>,
    start_paused: bool,
    finished: Result<FinishStep<L>, Error>,
    pause_live: P,
    paused: Result<(), Error>,
    cause: String,
    told: Option<Result<TorrentStatePaused<C>, String>>,
) where
    M: FnOnce(TorrentStatePaused<C>) -> L,
    P: FnOnce(&L) -> Result<TorrentStatePaused<C>, String>,

    requires
        before.is_visible(),
        ManagedTorrentState::start_post(before, after, info, only_files, make_live, started)
            || ManagedTorrentState::finish_start_post(
            before,
            after,
            outcome,
            start_paused,
            make_live,
            finished,
        ) || ManagedTorrentState::pause_post(before, after, pause_live, paused)
            || ManagedTorrentState::stop_post(before, after, cause, pause_live, told),
    ensures
        after.is_visible(),
{
}

/// A verification that succeeds takes an initializing torrent to the phase
/// that was asked for: paused where `start_paused` says so, live otherwise.
/// A torrent that is live refuses to start again, and stays as it is.
pub proof fn law_start_reaches_the_phase_asked_for<C, L, M, N>(
    before: ManagedTorrentState<C, L>,
    after: ManagedTorrentState<C, L>,
    snapshot: TorrentStatePaused<C>,
    start_paused: bool,
    make_live: M,
    finished: Result<FinishStep<L>, Error>,
    info: Arc<ManagedTorrentInfo>,
    only_files: Option<Vec<usize>>,
    make_live_again: N,
    later: ManagedTorrentState<C, L>,
    again: Result<StartStep<L>, Error>,
) where M: FnOnce(TorrentStatePaused<C>) -> L, N: FnOnce(TorrentStatePaused<C>) -> L
    requires
        before is Initializing,
        ManagedTorrentState::finish_start_post(
            before,
            after,
            Ok(snapshot),
            start_paused,
            make_live,
            finished,
        ),
        ManagedTorrentState::start_post(after, later, info, only_files, make_live_again, again),
    ensures
        finished is Ok,
        start_paused ==> after == ManagedTorrentState::<C, L>::Paused(snapshot),
        !start_paused ==> after is Live,
        after is Live ==> again == Err::<StartStep<L>, Error>(Error::AlreadyLive) && later
            == after,
{
}

/// Starting a failed torrent puts a new verification in place of the
/// failure: the phase is initializing, seeded with the descriptor and the
/// files of the torrent, and what `stats` reports next is no error.
pub proof fn law_start_forgets_the_failure<C, L, M, S>(
    before: ManagedTorrentState<C, L>,
    after: ManagedTorrentState<C, L>,
    info: Arc<ManagedTorrentInfo>,
    only_files: Option<Vec<usize>>,
    make_live: M,
    started: Result<StartStep<L>, Error>,
    total_bytes: u64,
    live_stats: S,
    stats: TorrentStats,
) where M: FnOnce(TorrentStatePaused<C>) -> L, S: FnOnce(&L) -> LiveStats
    requires
        before is Error,
        ManagedTorrentState::start_post(before, after, info, only_files, make_live, started),
        after.stats_post(total_bytes, live_stats, stats),
    ensures
        started matches Ok(StartStep::Verify(init)) && after == ManagedTorrentState::<
            C,
            L,
        >::Initializing(init) && init.meta == info,
        stats@.state == "initializing"@,
        stats@.error is None,
{
}

/// `pause` succeeds only on a live torrent, and on every live torrent whose
/// session does not refuse. From the other phases it fails, each with its
/// own error, and changes nothing.
pub proof fn law_pause_needs_a_live_torrent<C, L, P>(
    before: ManagedTorrentState<C, L>,
    after: ManagedTorrentState<C, L>,
    pause_live: P,
    res: Result<(), Error>,
) where P: FnOnce(&L) -> Result<TorrentStatePaused<C>, String>
    requires
        ManagedTorrentState::pause_post(before, after, pause_live, res),
    ensures
        res is Ok ==> before is Live && after is Paused,
        never_refuses(pause_live) ==> (res is Ok <==> before is Live),
        before is Initializing ==> res == Err::<(), Error>(Error::Initializing) && after == before,
        before is Paused ==> res == Err::<(), Error>(Error::AlreadyPaused) && after == before,
        before is Error ==> res == Err::<(), Error>(Error::InErrorState) && after == before,
{
}

/// Once a fatal failure has come in for a live torrent, its session has been
/// asked to pause, and `stats` reports the phase "error" with the cause as
/// its text.
pub proof fn law_fatal_failure_shows_in_stats<C, L, P, S>(
    before: ManagedTorrentState<C, L>,
    after: ManagedTorrentState<C, L>,
    cause: String,
    pause_live: P,
    told: Option<Result<TorrentStatePaused<C>, String>>,
    total_bytes: u64,
    live_stats: S,
    stats: TorrentStats,
) where P: FnOnce(&L) -> Result<TorrentStatePaused<C>, String>, S: FnOnce(&L) -> LiveStats
    requires
        before is Live,
        ManagedTorrentState::stop_post(before, after, cause, pause_live, told),
        after.stats_post(total_bytes, live_stats, stats),
    ensures
        told matches Some(answer) && call_ensures(pause_live, (&*before->Live_0,), answer),
        stats@.state == "error"@,
        stats@.error == Some(cause@),
        stats@.live is None,
{
}

/// A task that outlives what it serves ends without an error: the task
/// that feeds peers stops where its session is gone, and the task that
/// watches for a failure does nothing where its torrent is gone.
pub proof fn law_tasks_end_with_what_they_serve<C, L, A, F, P>(
    peers: Seq<A>,
    add_peer: F,
    fed: Result<IngestStep, Error>,
    signal: Option<String>,
    pause_live: P,
    outcome: WatchOutcome<C>,
) where
    F: Fn(&L, &A) -> Result<bool, String>,
    P: FnOnce(&L) -> Result<TorrentStatePaused<C>, String>,

    requires
        ingest_post(None::<Arc<L>>, peers, add_peer, fed),
        watch_post(None::<Arc<ManagedTorrent<C, L>>>, signal, pause_live, outcome),
    ensures
        fed == Ok::<IngestStep, Error>(IngestStep::Stop),
        !(outcome is Stopped),
{
}

} // verus!
