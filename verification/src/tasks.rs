use crate::error::Error;
use crate::state::ManagedTorrentState;
use crate::state::TorrentStatePaused;
use crate::torrent::ManagedTorrent;
use std::sync::Arc;
use vstd::prelude::*;

verus! {

/// Whether the task that feeds peers to a session goes on.
#[derive(Clone, Copy, Debug, PartialEq, Eq, Structural)]
pub enum IngestStep {
    /// The session took the peers: go on with the next ones.
    Continue,
    /// The session is gone: the task ends here, and that is no failure.
    Stop,
}

/// How the task that watches a live session for a fatal failure ended.
pub enum WatchOutcome<C> {
    /// The signal closed without a failure: the session shut down in order.
    Closed,
    /// A failure came, but no torrent is left to record it in.
    Unreachable,
    /// The failure is now the phase of the torrent. Holds what the session
    /// answered when it was asked to pause, if one was live.
    Stopped(Option<Result<TorrentStatePaused<C>, String>>),
}

/// The session has taken `peers[i]`, seen before or not.
pub open spec fn peer_taken<L, A, F: Fn(&L, &A) -> Result<bool, String>>(
    add_peer: F,
    session: L,
    peers: Seq<A>,
    i: int,
) -> bool {
    exists|seen: bool| call_ensures(add_peer, (&session, &peers[i]), Ok::<bool, String>(seen))
}

/// What feeding `peers` to the session behind `live` gives: nothing to do
/// where the session is gone; else every peer taken in turn, up to the
/// first that the session refuses, whose reason is the error.
pub open spec fn ingest_post<L, A, F: Fn(&L, &A) -> Result<bool, String>>(
    live: Option<Arc<L>>,
    peers: Seq<A>,
    add_peer: F,
    res: Result<IngestStep, Error>,
) -> bool {
    match live {
        None => res == Ok::<IngestStep, Error>(IngestStep::Stop),
        Some(session) => match res {
            Ok(step) => step == IngestStep::Continue && forall|i: int|
                0 <= i < peers.len() ==> peer_taken(add_peer, *session, peers, i),
            Err(e) => e matches Error::Failed(cause) && exists|k: int|
                0 <= k < peers.len() && call_ensures(
                    add_peer,
                    (&*session, &peers[k]),
                    Err::<bool, String>(cause),
                ) && forall|i: int| 0 <= i < k ==> peer_taken(add_peer, *session, peers, i),
        },
    }
}

/// Feeds `peers` to a live session, in order, with `add_peer`. `live` is
/// what is left of the session: `None` once nobody holds it any more.
pub fn add_peers<L, A, F>(live: Option<Arc<L>>, peers: &Vec<A>, add_peer: F) -> (res: Result<
    IngestStep,
    Error,
>) where F: Fn(&L, &A) -> Result<bool, String>
    requires
        forall|session: L, peer: A| call_requires(add_peer, (&session, &peer)),
    ensures
        ingest_post(live, peers@, add_peer, res),
{
    match live {
        None => Ok(IngestStep::Stop),
        Some(session) => {
            let mut i: usize = 0;
            while i < peers.len()
                invariant
                    0 <= i <= peers.len(),
                    live == Some(session),
                    forall|session: L, peer: A| call_requires(add_peer, (&session, &peer)),
                    forall|j: int| 0 <= j < i ==> peer_taken(add_peer, *session, peers@, j),
                decreases peers.len() - i,
            {
                let answer = add_peer(&session, &peers[i]);
                match answer {
                    Ok(seen) => {
                        assert(peer_taken(add_peer, *session, peers@, i as int));
                    },
                    Err(cause) => {
                        return Err(Error::Failed(cause));
                    },
                }
                i = i + 1;
            }
            Ok(IngestStep::Continue)
        },
    }
}

/// What the watcher of a live session does once its signal has fired or
/// closed.
pub open spec fn watch_post<C, L, F: FnOnce(&L) -> Result<TorrentStatePaused<C>, String>>(
    torrent: Option<Arc<ManagedTorrent<C, L>>>,
    signal: Option<String>,
    pause_live: F,
    outcome: WatchOutcome<C>,
) -> bool {
    match signal {
        None => outcome is Closed,
        Some(cause) => match torrent {
            None => outcome is Unreachable,
            Some(_) => outcome matches WatchOutcome::Stopped(told) && exists|
                before: ManagedTorrentState<C, L>,
                after: ManagedTorrentState<C, L>,
            |
                before.is_visible() && after.is_visible() && ManagedTorrentState::stop_post(
                    before,
                    after,
                    cause,
                    pause_live,
                    told,
                ),
        },
    }
}

/// The decision of the task that watches a live session for a fatal
/// failure. `signal` is what its one-shot signal gave: the failure, or
/// `None` where it closed without one. `torrent` is what is left of the
/// torrent: `None` once nobody holds it any more.
pub fn on_fatal_signal<C, L, F>(
    torrent: Option<Arc<ManagedTorrent<C, L>>>,
    signal: Option<String>,
    pause_live: F,
) -> (outcome: WatchOutcome<C>) where F: FnOnce(&L) -> Result<TorrentStatePaused<C>, String>
    requires
        forall|live: L| call_requires(pause_live, (&live,)),
    ensures
        watch_post(torrent, signal, pause_live, outcome),
{
    match signal {
        None => WatchOutcome::Closed,
        Some(cause) => match torrent {
            None => WatchOutcome::Unreachable,
            Some(torrent) => WatchOutcome::Stopped(torrent.stop_with_error(cause, pause_live)),
        },
    }
}

} // verus!
