use std::path::PathBuf;
use std::sync::Arc;
use std::sync::Mutex;

use tracing::Span;
use torrent_state::builder::ManagedTorrentBuilder;
use torrent_state::error::Error;
use torrent_state::info::BlockingSpawner;
use torrent_state::metainfo::Id20;
use torrent_state::metainfo::TorrentMetaV1Info;
use torrent_state::state::FinishStep;
use torrent_state::state::TorrentStatePaused;
use torrent_state::stats::LiveStats;
use torrent_state::stats::StatsSnapshot;
use torrent_state::tasks::add_peers;
use torrent_state::tasks::on_fatal_signal;
use torrent_state::tasks::IngestStep;
use torrent_state::tasks::WatchOutcome;
use torrent_state::torrent::ManagedTorrent;

/// A session that keeps the peers it was given, and refuses one of them.
struct Swarm {
    peers: Mutex<Vec<u16>>,
    refused: u16,
}

fn add(swarm: &Swarm, peer: &u16) -> Result<bool, String> {
    if *peer == swarm.refused {
        return Err("torrent closed".to_string());
    }
    let mut peers = swarm.peers.lock().unwrap();
    let seen = peers.contains(peer);
    peers.push(*peer);
    Ok(!seen)
}

fn swarm() -> Arc<Swarm> {
    Arc::new(Swarm { peers: Mutex::new(Vec::new()), refused: 666 })
}

fn spawner() -> BlockingSpawner {
    BlockingSpawner { allow_block_in_place: true }
}

#[test]
fn peers_are_fed_in_order() {
    let live = swarm();
    let res = add_peers(Some(live.clone()), &vec![3, 1, 2, 1], add);
    assert_eq!(res, Ok(IngestStep::Continue));
    assert_eq!(*live.peers.lock().unwrap(), vec![3, 1, 2, 1]);
}

#[test]
fn feeding_stops_without_error_once_the_session_is_gone() {
    let live = swarm();
    let weak = Arc::downgrade(&live);
    drop(live);
    let res = add_peers(weak.upgrade(), &vec![1u16, 2, 3], add);
    assert_eq!(res, Ok(IngestStep::Stop));
}

#[test]
fn feeding_ends_at_the_first_peer_that_is_refused() {
    let live = swarm();
    let res = add_peers(Some(live.clone()), &vec![5, 666, 6], add);
    assert_eq!(res, Err(Error::Failed("torrent closed".to_string())));
    assert_eq!(*live.peers.lock().unwrap(), vec![5]);
}

#[test]
fn feeding_no_peer_goes_on() {
    let live = swarm();
    assert_eq!(add_peers(Some(live), &Vec::<u16>::new(), add), Ok(IngestStep::Continue));
}

struct Quiet;

fn pause_quiet(_: &Quiet) -> Result<TorrentStatePaused<u8>, String> {
    Ok(TorrentStatePaused { chunk_tracker: 1, have_bytes: 2 })
}

fn quiet_stats(_: &Quiet) -> LiveStats {
    LiveStats { snapshot: StatsSnapshot { have_bytes: 2, fetched_bytes: 0, uploaded_bytes: 0 } }
}

fn quiet_torrent() -> Arc<ManagedTorrent<u8, Quiet>> {
    let info = TorrentMetaV1Info {
        name: None,
        pieces: Vec::new(),
        piece_length: 4,
        length: Some(10),
        files: None,
    };
    ManagedTorrentBuilder::new(info, Id20([0u8; 20]), PathBuf::from("out"))
        .build(Span::none(), || Id20([2u8; 20]), spawner)
        .unwrap()
}

#[test]
fn closed_signal_changes_nothing() {
    let t = quiet_torrent();
    let outcome = on_fatal_signal(Some(t.clone()), None, pause_quiet);
    assert!(matches!(outcome, WatchOutcome::Closed));
    assert_eq!(t.stats(quiet_stats).state, "initializing");
}

#[test]
fn failure_for_a_torrent_that_is_gone_is_dropped() {
    let t = quiet_torrent();
    let weak = Arc::downgrade(&t);
    drop(t);
    let outcome = on_fatal_signal(weak.upgrade(), Some("late".to_string()), pause_quiet);
    assert!(matches!(outcome, WatchOutcome::Unreachable));
}

#[test]
fn failure_of_a_live_torrent_is_recorded() {
    let t = quiet_torrent();
    t.start(|_| Quiet).ok();
    assert!(matches!(
        t.finish_start(Ok(TorrentStatePaused { chunk_tracker: 0, have_bytes: 10 }), false, |_| Quiet),
        Ok(FinishStep::Spawn(_))
    ));
    let outcome = on_fatal_signal(Some(t.clone()), Some("peer storm".to_string()), pause_quiet);
    assert!(matches!(outcome, WatchOutcome::Stopped(Some(Ok(ref p))) if p.have_bytes == 2));
    let stats = t.stats(quiet_stats);
    assert_eq!(stats.state, "error");
    assert_eq!(stats.error, Some("peer storm".to_string()));
}
