use std::cell::Cell;
use std::path::PathBuf;
use std::sync::Arc;
use std::time::Duration;

use tracing::Span;
use torrent_state::builder::contains_text;
use torrent_state::builder::dedup_texts;
use torrent_state::builder::ManagedTorrentBuilder;
use torrent_state::error::Error;
use torrent_state::info::clone_selection;
use torrent_state::info::ManagedTorrentInfo;
use torrent_state::info::ManagedTorrentOptions;
use torrent_state::state::ManagedTorrentState;
use torrent_state::lengths::Lengths;
use torrent_state::metainfo::sum_file_lengths;
use torrent_state::info::BlockingSpawner;
use torrent_state::metainfo::Id20;
use torrent_state::metainfo::TorrentMetaV1File;
use torrent_state::metainfo::TorrentMetaV1Info;
use torrent_state::torrent::ManagedTorrent;

fn file(length: u64) -> TorrentMetaV1File {
    TorrentMetaV1File { length, path: vec![b"dir".to_vec(), b"file".to_vec()] }
}

fn single(length: u64, piece_length: u32) -> TorrentMetaV1Info {
    TorrentMetaV1Info { name: None, pieces: Vec::new(), piece_length, length: Some(length), files: None }
}

fn multi(files: Vec<TorrentMetaV1File>, piece_length: u32) -> TorrentMetaV1Info {
    TorrentMetaV1Info { name: None, pieces: Vec::new(), piece_length, length: None, files: Some(files) }
}

fn spawner() -> BlockingSpawner {
    BlockingSpawner { allow_block_in_place: true }
}

#[test]
fn layout_of_a_short_torrent_is_one_short_piece() {
    let lengths = Lengths::new(100, 16384).unwrap();
    assert_eq!(lengths.total_length(), 100);
    assert_eq!(lengths.default_piece_length(), 16384);
    assert_eq!(lengths.total_pieces(), 1);
    assert_eq!(lengths.last_piece_length(), 100);
}

#[test]
fn layout_with_full_last_piece() {
    let lengths = Lengths::new(32768, 16384).unwrap();
    assert_eq!(lengths.total_pieces(), 2);
    assert_eq!(lengths.last_piece_length(), 16384);
}

#[test]
fn layout_with_a_tail() {
    let lengths = Lengths::new(32769, 16384).unwrap();
    assert_eq!(lengths.total_pieces(), 3);
    assert_eq!(lengths.last_piece_length(), 1);
}

#[test]
fn layout_is_refused_for_sizes_that_make_none() {
    assert_eq!(Lengths::new(100, 0), Err(Error::ZeroPieceLength));
    assert_eq!(Lengths::new(0, 16384), Err(Error::ZeroLength));
    assert_eq!(Lengths::new(0, 0), Err(Error::ZeroPieceLength));
    assert_eq!(Lengths::new(u64::MAX, 1), Err(Error::TooLarge));
    assert_eq!(Lengths::new(u32::MAX as u64, 1).unwrap().total_pieces(), u32::MAX);
    assert_eq!(Lengths::new(u32::MAX as u64 + 1, 1), Err(Error::TooLarge));
}

#[test]
fn total_length_adds_up_the_files() {
    assert_eq!(single(77, 4).total_length(), Ok(77));
    assert_eq!(multi(vec![file(10), file(0), file(5)], 4).total_length(), Ok(15));
    assert_eq!(sum_file_lengths(&vec![file(1), file(2), file(3)]), Some(6));
    assert_eq!(sum_file_lengths(&vec![]), Some(0));
    assert_eq!(sum_file_lengths(&vec![file(u64::MAX), file(1)]), None);
}

#[test]
fn metadata_without_a_total_is_refused() {
    assert_eq!(multi(vec![], 4).total_length(), Err(Error::NoFiles));
    assert_eq!(multi(vec![file(u64::MAX), file(1)], 4).total_length(), Err(Error::TooLarge));
    let mut both = single(5, 4);
    both.files = Some(vec![file(5)]);
    assert_eq!(both.total_length(), Err(Error::AmbiguousFiles));
    let mut neither = single(5, 4);
    neither.length = None;
    assert_eq!(neither.total_length(), Err(Error::AmbiguousFiles));
    assert_eq!(Lengths::from_torrent(&neither), Err(Error::AmbiguousFiles));
    assert_eq!(Lengths::from_torrent(&multi(vec![file(0)], 4)), Err(Error::ZeroLength));
    assert_eq!(Lengths::from_torrent(&multi(vec![file(9), file(1)], 4)).unwrap().total_pieces(), 3);
    assert_eq!(
        Error::AmbiguousFiles.message(),
        "torrent can't be both in single and multi-file mode"
    );
    assert_eq!(Error::NoFiles.message(), "expected multi-file torrent to have at least one file");
    assert_eq!(Error::ZeroLength.message(), "torrent with 0 length is useless");
}

#[test]
fn build_fails_on_metadata_without_layout() {
    let res: Result<Arc<ManagedTorrent<u8, u8>>, Error> =
        ManagedTorrentBuilder::new(single(0, 16384), Id20([0u8; 20]), PathBuf::from("out"))
            .build(Span::none(), || Id20([1u8; 20]), spawner);
    assert!(matches!(res, Err(Error::ZeroLength)));
}

#[test]
fn builder_starts_with_nothing_chosen() {
    let b = ManagedTorrentBuilder::new(single(10, 4), Id20([3u8; 20]), PathBuf::from("out"));
    assert_eq!(b.info_hash, Id20([3u8; 20]));
    assert_eq!(b.output_folder, PathBuf::from("out"));
    assert_eq!(b.only_files, None);
    assert!(b.trackers.is_empty());
    assert_eq!(b.peer_id, None);
    assert!(!b.overwrite);
    assert_eq!(b.force_tracker_interval, None);
    assert_eq!(b.peer_connect_timeout, None);
    assert_eq!(b.peer_read_write_timeout, None);
    assert_eq!(b.spawner, None);
}

#[test]
fn descriptor_holds_what_was_chosen() {
    let mut b = ManagedTorrentBuilder::new(single(10, 4), Id20([3u8; 20]), PathBuf::from("out"));
    b.only_files(vec![2, 0])
        .trackers(vec!["udp://a/".to_string(), "udp://b/".to_string(), "udp://a/".to_string()])
        .overwrite(true)
        .force_tracker_interval(Duration::from_secs(30))
        .peer_id(Id20([7u8; 20]))
        .peer_connect_timeout(Duration::from_secs(2))
        .peer_read_write_timeout(Duration::from_secs(9))
        .spawner(BlockingSpawner { allow_block_in_place: false });
    let called = Cell::new(0);
    let (info, only_files) = b
        .describe(
            Span::none(),
            || {
                called.set(called.get() + 1);
                Id20([1u8; 20])
            },
            || {
                called.set(called.get() + 1);
                BlockingSpawner { allow_block_in_place: true }
            },
        )
        .unwrap();
    assert_eq!(called.get(), 0);
    assert_eq!(info.spawner, BlockingSpawner { allow_block_in_place: false });
    assert!(info.span.is_none());
    assert_eq!(info.peer_id, Id20([7u8; 20]));
    assert_eq!(info.info_hash, Id20([3u8; 20]));
    assert_eq!(info.out_dir, PathBuf::from("out"));
    assert_eq!(info.info, single(10, 4));
    assert_eq!(info.lengths, Lengths::new(10, 4).unwrap());
    assert_eq!(info.trackers, vec!["udp://a/".to_string(), "udp://b/".to_string()]);
    assert!(info.options.overwrite);
    assert_eq!(info.options.force_tracker_interval, Some(Duration::from_secs(30)));
    assert_eq!(info.options.peer_connect_timeout, Some(Duration::from_secs(2)));
    assert_eq!(info.options.peer_read_write_timeout, Some(Duration::from_secs(9)));
    assert_eq!(only_files, Some(vec![2, 0]));
}

#[test]
fn peer_id_is_made_where_none_was_chosen() {
    let t: Arc<ManagedTorrent<u8, u8>> =
        ManagedTorrentBuilder::new(single(10, 4), Id20([3u8; 20]), PathBuf::from("out"))
            .build(Span::none(), || Id20([42u8; 20]), spawner)
            .unwrap();
    assert_eq!(t.info().peer_id, Id20([42u8; 20]));
    assert_eq!(t.info().spawner, BlockingSpawner { allow_block_in_place: true });
    assert_eq!(t.get_total_bytes(), 10);
}

#[test]
fn selection_of_files_is_kept() {
    let mut b = ManagedTorrentBuilder::new(single(10, 4), Id20([3u8; 20]), PathBuf::from("out"));
    b.only_files(vec![1, 3]);
    let t: Arc<ManagedTorrent<u8, u8>> = b.build(Span::none(), || Id20([1u8; 20]), spawner).unwrap();
    assert_eq!(t.only_files(), Some(vec![1, 3]));
    assert_eq!(clone_selection(&Some(vec![4, 5, 6])), Some(vec![4, 5, 6]));
    assert_eq!(clone_selection(&None), None);
}

#[test]
fn texts_are_kept_once_each() {
    let texts: Vec<String> = ["x", "y", "x", "", "y", "z"].iter().map(|s| s.to_string()).collect();
    assert_eq!(dedup_texts(&texts), vec!["x", "y", "", "z"]);
    assert!(contains_text(&texts, &"z".to_string()));
    assert!(!contains_text(&texts, &"w".to_string()));
    assert!(dedup_texts(&Vec::new()).is_empty());
}

#[test]
fn options_start_with_nothing_chosen() {
    let options = ManagedTorrentOptions::default();
    assert_eq!(options.force_tracker_interval, None);
    assert_eq!(options.peer_connect_timeout, None);
    assert_eq!(options.peer_read_write_timeout, None);
    assert!(!options.overwrite);
}

#[test]
fn layout_errors_have_their_texts() {
    assert_eq!(Error::ZeroPieceLength.message(), "torrent with piece length 0 is useless");
    assert_eq!(Error::TooLarge.message(), "torrent is too large to lay out");
}

#[test]
fn first_phase_is_seeded_with_descriptor_and_selection() {
    let b = ManagedTorrentBuilder::new(single(10, 4), Id20([3u8; 20]), PathBuf::from("out"));
    let (info, _) = b.describe(Span::none(), || Id20([1u8; 20]), spawner).unwrap();
    let info: Arc<ManagedTorrentInfo> = Arc::new(info);
    let state: ManagedTorrentState<u8, u8> = ManagedTorrentState::initial(info.clone(), Some(vec![1]));
    match state {
        ManagedTorrentState::Initializing(init) => {
            assert!(Arc::ptr_eq(&init.meta, &info));
            assert_eq!(init.only_files, Some(vec![1]));
            assert_eq!(init.progress(), 0);
        }
        _ => panic!("a new torrent is initializing"),
    }
    let t: ManagedTorrent<u8, u8> = ManagedTorrent::new(info.clone(), None);
    assert!(Arc::ptr_eq(&t.info, &info));
    assert!(t.with_state(|s| matches!(s, ManagedTorrentState::Initializing(_))));
}
